//! Ownership of one runtime over its lifetime: release, refresh and shutdown.
//!
//! A response stays withheld until its release is checked, once, against the
//! serving epoch and the security epoch that it was made under. Refresh and
//! shutdown wait for that: the exclusion admits one of them at a time.

use crate::continuation::ContinuationReplayGuard;
use crate::failure::PrivateQueryUnavailable;
use crate::failure::UniformExternalFailure;
use crate::private_service::FinalizedProjection;
use crate::profile::CompiledQueryShape;
use crate::providers::ContinuationTokenProtector;
use crate::providers::FrozenRecentSnapshot;
use crate::providers::PrivateQueryCodec;
use crate::providers::PrivateQueryEngine;
use crate::providers::ServingEpochCurrentness;
use crate::providers::PinnedServingEpoch;
use crate::providers::ServingEpochTranscript;
use crate::providers::ServingEpochUnavailable;
use crate::records::PrivateNetwork;
use crate::records::RecentSnapshotIdentity;
use crate::release_gate::FinalizedRuntimeOwnerError;
use crate::release_gate::ResponseReleaseGate;
use crate::release_gate::ResponseReleasePermit;
use crate::release_gate::ResponseReleaseState;
use crate::round::InnerCodecError;
use crate::runtime::EncodedRuntimeRound;
use crate::runtime::PrivateQueryRuntime;
use crate::runtime::RoundTranscript;
use crate::security_owner::ActiveSecurityLease;
use crate::security_owner::InProcessSecurityEpochCurrentness;
use crate::security_owner::RoundMaterialSource;
use crate::security_owner::SecurityEpochReleaseWitness;
use crate::serving_epoch::ServingEpochCapture;
use crate::serving_epoch::ServingEpochLease;
use crate::trace::AccessTrace;
use vstd::prelude::*;

verus! {

/// One completed runtime round whose release permit remains outstanding.
pub struct PendingRuntimeRound<C, const ENVELOPE_BYTES: usize> {
    pub round: EncodedRuntimeRound<ENVELOPE_BYTES>,
    pub serving_release_witness: PinnedServingEpoch<C>,
    pub security_release_witness: SecurityEpochReleaseWitness,
    /// The decision on the release, once it is made.
    pub release_decision: Option<Result<(), UniformExternalFailure>>,
    pub release_permit: ResponseReleasePermit,
}

/// The epoch is retired; what was observed of it stays as it was.
pub open spec fn is_retired(
    before: InProcessSecurityEpochCurrentness,
    after: InProcessSecurityEpochCurrentness,
) -> bool {
    after.active is None && !after.available && after.observations == before.observations
}

impl<C, const ENVELOPE_BYTES: usize> PendingRuntimeRound<C, ENVELOPE_BYTES> {
    /// The security epoch admits the release of this round.
    pub open spec fn is_releasable(self, security: InProcessSecurityEpochCurrentness) -> bool {
        &&& security.is_current(self.security_release_witness.expected)
        &&& self.round.claim().is_authorized(self.security_release_witness.expected)
    }

    /// Opens the check of the release.
    ///
    /// Where the exclusion is no longer held for this response, the release is
    /// refused for good without observing anything.
    pub fn begin_release(
        &mut self,
        gate: &mut ResponseReleaseGate,
        security: &mut InProcessSecurityEpochCurrentness,
    ) -> (checking: bool)
        ensures
            checking == (old(self).release_decision is None
                && old(self).release_permit.held is Pending && old(gate).state is Pending),
            old(self).release_decision is Some ==> *final(self) == *old(self) && *final(gate)
                == *old(gate) && *final(security) == *old(security),
            checking ==> *final(self) == *old(self) && final(gate).state is Checking
                && *final(security) == *old(security),
            old(self).release_decision is None && !checking ==> *final(self) == (
            PendingRuntimeRound {
                release_decision: Some(Err(UniformExternalFailure)),
                ..*old(self)
            }) && final(gate).state is Closed && is_retired(*old(security), *final(security)),
    {
        if self.release_decision.is_some() {
            return false;
        }
        if !self.release_permit.begin_response_release(gate) {
            self.fail_closed(gate, security);
            self.release_decision = Some(Err(UniformExternalFailure));
            return false;
        }
        true
    }

    /// Decides the release of a response whose check is open.
    ///
    /// It is released if its serving epoch was observed to be current, its
    /// security epoch is current and covers the round, and the exclusion was not
    /// closed meanwhile. Any other release is refused for good.
    pub fn complete_release(
        &mut self,
        gate: &mut ResponseReleaseGate,
        security: &mut InProcessSecurityEpochCurrentness,
        observed: Result<(), ServingEpochUnavailable>,
    ) -> (decision: Result<(), UniformExternalFailure>)
        ensures
            *final(self) == (PendingRuntimeRound {
                release_decision: Some(decision),
                ..*old(self)
            }),
            decision is Ok <==> observed is Ok && old(self).is_releasable(*old(security))
                && old(gate).state is Checking,
            final(security).observations == if observed is Ok && old(security).available && old(
                security,
            ).observations < usize::MAX {
                (old(security).observations + 1) as usize
            } else {
                old(security).observations
            },
            decision is Ok ==> final(gate).state is Authorized && final(security).active == old(
                security,
            ).active && final(security).available == old(security).available,
            decision is Err ==> final(gate).state is Closed && final(security).active is None
                && !final(security).available,
    {
        let decision = self.judge_release(gate, security, observed);
        if decision.is_err() {
            self.fail_closed(gate, security);
        }
        self.release_decision = Some(decision);
        decision
    }

    fn judge_release(
        &self,
        gate: &mut ResponseReleaseGate,
        security: &mut InProcessSecurityEpochCurrentness,
        observed: Result<(), ServingEpochUnavailable>,
    ) -> (decision: Result<(), UniformExternalFailure>)
        ensures
            decision is Ok <==> observed is Ok && self.is_releasable(*old(security))
                && old(gate).state is Checking,
            decision is Ok ==> final(gate).state is Authorized,
            final(security).active == old(security).active,
            final(security).available == old(security).available,
            final(security).observations == if observed is Ok && old(security).available
                && old(security).observations < usize::MAX {
                (old(security).observations + 1) as usize
            } else {
                old(security).observations
            },
    {
        if observed.is_err() {
            return Err(UniformExternalFailure);
        }
        let claim = self.round.release_claim();
        if self.security_release_witness.observe_and_match(security, &claim).is_err() {
            return Err(UniformExternalFailure);
        }
        if !self.release_permit.authorize_response_release(gate) {
            return Err(UniformExternalFailure);
        }
        Ok(())
    }

    /// Closes the exclusion and retires the security epoch.
    pub fn fail_closed(
        &self,
        gate: &mut ResponseReleaseGate,
        security: &mut InProcessSecurityEpochCurrentness,
    )
        ensures
            final(gate).state is Closed,
            is_retired(*old(security), *final(security)),
    {
        security.retire();
        self.release_permit.fail_closed(gate);
    }

    /// Gives the permit back: the response will not be released any more.
    pub fn release(self, gate: &mut ResponseReleaseGate)
        ensures
            final(gate).state == crate::release_gate::gate_after_release(
                old(gate).state,
                self.release_permit.held,
            ),
    {
        self.release_permit.release(gate);
    }

    pub fn trace(&self) -> (trace: &AccessTrace)
        ensures
            *trace == self.round.trace,
    {
        &self.round.trace
    }

    /// Redacted rendering for logs.
    pub fn debug_text(&self) -> (text: &'static str)
        ensures
            text@ == "PendingRuntimeRound { ..REDACTED.. }"@,
    {
        "PendingRuntimeRound { ..REDACTED.. }"
    }
}

/// How a first attempt at a release ends.
pub open spec fn release_ends<C: ServingEpochCurrentness, const ENVELOPE_BYTES: usize>(
    pending: PendingRuntimeRound<C, ENVELOPE_BYTES>,
    gate: ResponseReleaseState,
    security: InProcessSecurityEpochCurrentness,
    check: ServingEpochTranscript<C>,
    observed: Result<(), ServingEpochUnavailable>,
    currentness_after: C,
    decision: Result<(), UniformExternalFailure>,
) -> bool {
    if pending.release_permit.held is Pending && gate is Pending {
        &&& crate::providers::serving_check(
            pending.serving_release_witness.pinned,
            pending.serving_release_witness.currentness,
            check,
            currentness_after,
            observed,
        )
        &&& (decision is Ok <==> observed is Ok && pending.is_releasable(security))
    } else {
        decision is Err && currentness_after == pending.serving_release_witness.currentness
    }
}

impl<C: ServingEpochCurrentness, const ENVELOPE_BYTES: usize> PendingRuntimeRound<
    C,
    ENVELOPE_BYTES,
> {
    /// Decides the release, the first time it is asked for.
    fn decide_release(
        &mut self,
        gate: &mut ResponseReleaseGate,
        security: &mut InProcessSecurityEpochCurrentness,
    ) -> (decision: Result<(), UniformExternalFailure>)
        requires
            old(self).release_decision is None,
        ensures
            final(self).round == old(self).round,
            final(self).release_permit == old(self).release_permit,
            final(self).security_release_witness == old(self).security_release_witness,
            final(self).serving_release_witness.pinned == old(self).serving_release_witness.pinned,
            final(self).release_decision == Some(decision),
            decision is Ok ==> final(gate).state is Authorized
                && final(security).active == old(security).active
                && final(security).available == old(security).available,
            decision is Err ==> final(gate).state is Closed && final(security).active is None
                && !final(security).available,
            exists|
                check: ServingEpochTranscript<C>,
                observed: Result<(), ServingEpochUnavailable>,
            | #[trigger]
                release_ends(
                    *old(self),
                    old(gate).state,
                    *old(security),
                    check,
                    observed,
                    final(self).serving_release_witness.currentness,
                    decision,
                ),
    {
        if !self.begin_release(gate, security) {
            assert(release_ends(
                *old(self),
                old(gate).state,
                *old(security),
                arbitrary(),
                Ok(()),
                self.serving_release_witness.currentness,
                Err(UniformExternalFailure),
            ));
            return Err(UniformExternalFailure);
        }
        let observed = self.serving_release_witness.observe_and_match();
        let ghost check = choose|check: ServingEpochTranscript<C>| #[trigger]
            crate::providers::serving_check(
                old(self).serving_release_witness.pinned,
                old(self).serving_release_witness.currentness,
                check,
                self.serving_release_witness.currentness,
                observed,
            );
        let decision = self.complete_release(gate, security, observed);
        assert(release_ends(
            *old(self),
            old(gate).state,
            *old(security),
            check,
            observed,
            self.serving_release_witness.currentness,
            decision,
        ));
        decision
    }

    /// The response's bytes, if it is released.
    ///
    /// The first attempt decides; every later one gives the same answer and
    /// observes nothing.
    pub fn try_release_bytes(
        &mut self,
        gate: &mut ResponseReleaseGate,
        security: &mut InProcessSecurityEpochCurrentness,
    ) -> (result: Result<[u8; ENVELOPE_BYTES], UniformExternalFailure>)
        ensures
            final(self).round == old(self).round,
            final(self).release_decision is Some,
            result == match final(self).release_decision->Some_0 {
                Ok(()) => Ok(old(self).round.envelope),
                Err(_) => Err(UniformExternalFailure),
            },
            old(self).release_decision is Some ==> *final(self) == *old(self) && *final(gate)
                == *old(gate) && *final(security) == *old(security),
            old(self).release_decision is None ==> {
                &&& exists|
                    check: ServingEpochTranscript<C>,
                    observed: Result<(), ServingEpochUnavailable>,
                | #[trigger]
                    release_ends(
                        *old(self),
                        old(gate).state,
                        *old(security),
                        check,
                        observed,
                        final(self).serving_release_witness.currentness,
                        final(self).release_decision->Some_0,
                    )
                &&& result is Ok ==> final(gate).state is Authorized && final(security).active
                    == old(security).active && final(security).available == old(security).available
                &&& result is Err ==> final(gate).state is Closed && final(security).active is None
                    && !final(security).available
            },
    {
        let decision = match self.release_decision {
            Some(decision) => decision,
            None => self.decide_release(gate, security),
        };
        match decision {
            Ok(()) => Ok(self.round.envelope),
            Err(_) => Err(UniformExternalFailure),
        }
    }
}

/// Coarsens any failure of an owner's parts.
pub fn coarsen_runtime_owner_error<Failure>(failure: Failure) -> (error: FinalizedRuntimeOwnerError)
    ensures
        error == FinalizedRuntimeOwnerError,
{
    FinalizedRuntimeOwnerError
}

/// First half of a replacement, before a candidate is awaited.
///
/// The prior epoch is retired at once, so an abandoned replacement cannot leave
/// it eligible for later requests.
pub fn retire_before_replacement<
    S: PrivateQueryEngine<D::Slot>,
    Q: PrivateQueryCodec<E, RESPONSE_SLOTS, ENVELOPE_BYTES>,
    E,
    T: ContinuationTokenProtector,
    R: ContinuationReplayGuard,
    N: RoundMaterialSource,
    C: ServingEpochCurrentness,
    D: FrozenRecentSnapshot,
    const RESPONSE_SLOTS: usize,
    const ENVELOPE_BYTES: usize,
>(
    runtime: &mut PrivateQueryRuntime<S, Q, E, T, R, N, C, D, RESPONSE_SLOTS, ENVELOPE_BYTES>,
    stopped: bool,
) -> (result: Result<(), FinalizedRuntimeOwnerError>)
    ensures
        *final(runtime) == (PrivateQueryRuntime { epoch: None, ..*old(runtime) }),
        result is Ok <==> !stopped && old(runtime).healthy,
{
    runtime.retire_epoch();
    if stopped || !runtime.healthy {
        return Err(FinalizedRuntimeOwnerError);
    }
    Ok(())
}

/// Second half of a replacement, with what was awaited.
pub fn activate_replacement<
    S: PrivateQueryEngine<D::Slot>,
    Q: PrivateQueryCodec<E, RESPONSE_SLOTS, ENVELOPE_BYTES>,
    E,
    T: ContinuationTokenProtector,
    R: ContinuationReplayGuard,
    N: RoundMaterialSource,
    C: ServingEpochCurrentness,
    D: FrozenRecentSnapshot,
    const RESPONSE_SLOTS: usize,
    const ENVELOPE_BYTES: usize,
>(
    runtime: &mut PrivateQueryRuntime<S, Q, E, T, R, N, C, D, RESPONSE_SLOTS, ENVELOPE_BYTES>,
    candidate: Result<ServingEpochLease<S::Store, C, D>, FinalizedRuntimeOwnerError>,
) -> (result: Result<(), FinalizedRuntimeOwnerError>)
    requires
        old(runtime).epoch is None,
    ensures
        result is Ok <==> final(runtime).epoch is Some,
        *final(runtime) == (PrivateQueryRuntime { epoch: final(runtime).epoch, ..*old(runtime) }),
        replacement_ends(*old(runtime), candidate, final(runtime).epoch),
{
    match candidate {
        Ok(candidate) => match runtime.activate_finalized_serving_epoch(candidate) {
            Ok(()) => Ok(()),
            Err(error) => Err(coarsen_runtime_owner_error(error)),
        },
        Err(error) => Err(error),
    }
}

/// The epoch that a replacement leaves.
pub open spec fn replacement_ends<
    S: PrivateQueryEngine<D::Slot>,
    Q: PrivateQueryCodec<E, RESPONSE_SLOTS, ENVELOPE_BYTES>,
    E,
    T: ContinuationTokenProtector,
    R: ContinuationReplayGuard,
    N: RoundMaterialSource,
    C: ServingEpochCurrentness,
    D: FrozenRecentSnapshot,
    const RESPONSE_SLOTS: usize,
    const ENVELOPE_BYTES: usize,
>(
    runtime: PrivateQueryRuntime<S, Q, E, T, R, N, C, D, RESPONSE_SLOTS, ENVELOPE_BYTES>,
    candidate: Result<ServingEpochLease<S::Store, C, D>, FinalizedRuntimeOwnerError>,
    epoch: Option<crate::runtime::PrivateQueryRuntimeEpoch<S, C, D>>,
) -> bool {
    match candidate {
        Err(_) => epoch is None,
        Ok(candidate) => {
            let identity = candidate.pinned().pinned.identity;
            if runtime.healthy && identity.network_tag <= 2 && identity.key_epoch
                == runtime.security.key_epoch {
                exists|
                    checkpoint: crate::records::PrivateQueryCheckpoint,
                    replies: crate::runtime::EpochReplies<S>,
                | #[trigger]
                    crate::runtime::epoch_is_built(
                        candidate,
                        runtime.shape.profile,
                        checkpoint,
                        replies,
                        crate::runtime::activated(epoch),
                    ) && crate::records::identity_of(checkpoint) == identity
            } else {
                epoch is None
            }
        },
    }
}

/// Replaces only the epoch-scoped portion of one finalized runtime.
///
/// Protection, replay, material, session, profile and health state stay.
pub fn replace_finalized_runtime_epoch_from<
    S: PrivateQueryEngine<D::Slot>,
    Q: PrivateQueryCodec<E, RESPONSE_SLOTS, ENVELOPE_BYTES>,
    E,
    T: ContinuationTokenProtector,
    R: ContinuationReplayGuard,
    N: RoundMaterialSource,
    C: ServingEpochCurrentness,
    D: FrozenRecentSnapshot,
    const RESPONSE_SLOTS: usize,
    const ENVELOPE_BYTES: usize,
>(
    runtime: &mut PrivateQueryRuntime<S, Q, E, T, R, N, C, D, RESPONSE_SLOTS, ENVELOPE_BYTES>,
    stopped: bool,
    candidate: Result<ServingEpochLease<S::Store, C, D>, FinalizedRuntimeOwnerError>,
) -> (result: Result<(), FinalizedRuntimeOwnerError>)
    ensures
        result is Ok <==> final(runtime).epoch is Some,
        *final(runtime) == (PrivateQueryRuntime { epoch: final(runtime).epoch, ..*old(runtime) }),
        if stopped {
            final(runtime).epoch is None
        } else {
            replacement_ends(*old(runtime), candidate, final(runtime).epoch)
        },
{
    match retire_before_replacement(runtime, stopped) {
        Ok(()) => {},
        Err(error) => {
            return Err(error);
        },
    }
    activate_replacement(runtime, candidate)
}

/// A response whose release is still to be decided, made in these epochs.
///
/// It carries its own lease on the serving epoch that it was made in, which observes what
/// that epoch observed.
pub open spec fn is_pending_round<C: ServingEpochCurrentness, const ENVELOPE_BYTES: usize>(
    pending: PendingRuntimeRound<C, ENVELOPE_BYTES>,
    serving_epoch: PinnedServingEpoch<C>,
    security_epoch: crate::runtime_security::SecurityEpochTag,
) -> bool {
    &&& pending.release_decision is None
    &&& pending.release_permit.held is Pending
    &&& pending.serving_release_witness.pinned == serving_epoch.pinned
    &&& serving_epoch.currentness.may_hand_out(pending.serving_release_witness.currentness)
    &&& pending.security_release_witness.expected == security_epoch
}

/// The encoded round of a pending response.
pub open spec fn pending_part<C, const ENVELOPE_BYTES: usize>(
    result: Result<PendingRuntimeRound<C, ENVELOPE_BYTES>, UniformExternalFailure>,
) -> Result<EncodedRuntimeRound<ENVELOPE_BYTES>, UniformExternalFailure> {
    match result {
        Ok(pending) => Ok(pending.round),
        Err(failure) => Err(failure),
    }
}

/// The encoded round of an answered query.
pub open spec fn answered_part<C, const ENVELOPE_BYTES: usize>(
    result: Result<PendingRuntimeRound<C, ENVELOPE_BYTES>, PrivateQueryUnavailable>,
) -> Result<EncodedRuntimeRound<ENVELOPE_BYTES>, UniformExternalFailure> {
    match result {
        Ok(pending) => Ok(pending.round),
        Err(_) => Err(UniformExternalFailure),
    }
}

/// A request reaches the runtime: it is not stopped, nothing else holds the
/// exclusion, and the runtime is healthy and has an epoch.
pub open spec fn is_admitted<
    S: PrivateQueryEngine<D::Slot>,
    Q: PrivateQueryCodec<E, RESPONSE_SLOTS, ENVELOPE_BYTES>,
    E,
    T: ContinuationTokenProtector,
    R: ContinuationReplayGuard,
    N: RoundMaterialSource,
    C: ServingEpochCurrentness,
    D: FrozenRecentSnapshot,
    const RESPONSE_SLOTS: usize,
    const ENVELOPE_BYTES: usize,
>(
    runtime: PrivateQueryRuntime<S, Q, E, T, R, N, C, D, RESPONSE_SLOTS, ENVELOPE_BYTES>,
    stopped: bool,
    gate: ResponseReleaseState,
) -> bool {
    !stopped && gate is Idle && runtime.healthy && runtime.epoch is Some
}

/// Runs one round while returning the unique response-release permit with it.
pub fn handle_finalized_runtime_round<
    S: PrivateQueryEngine<D::Slot>,
    Q: PrivateQueryCodec<E, RESPONSE_SLOTS, ENVELOPE_BYTES>,
    E,
    T: ContinuationTokenProtector,
    R: ContinuationReplayGuard,
    N: RoundMaterialSource,
    C: ServingEpochCurrentness,
    D: FrozenRecentSnapshot,
    const RESPONSE_SLOTS: usize,
    const ENVELOPE_BYTES: usize,
>(
    runtime: &mut PrivateQueryRuntime<S, Q, E, T, R, N, C, D, RESPONSE_SLOTS, ENVELOPE_BYTES>,
    stopped: bool,
    response_release: &mut ResponseReleaseGate,
    envelope: &[u8; ENVELOPE_BYTES],
) -> (result: Result<PendingRuntimeRound<C, ENVELOPE_BYTES>, UniformExternalFailure>)
    requires
        old(runtime).wf(),
    ensures
        final(runtime).wf(),
        final(runtime).shape == old(runtime).shape,
        final(runtime).codec == old(runtime).codec,
        PrivateQueryRuntime::<S, Q, E, T, R, N, C, D, RESPONSE_SLOTS, ENVELOPE_BYTES>::keeps_lease(
            old(runtime).security,
            final(runtime).security,
        ),
        !is_admitted(*old(runtime), stopped, old(response_release).state) ==> result is Err
            && *final(runtime) == *old(runtime)
            && final(response_release).state == old(response_release).state,
        is_admitted(*old(runtime), stopped, old(response_release).state)
            ==> final(runtime).epoch is Some && PrivateQueryRuntime::<
            S,
            Q,
            E,
            T,
            R,
            N,
            C,
            D,
            RESPONSE_SLOTS,
            ENVELOPE_BYTES,
        >::keeps_epoch(old(runtime).epoch->Some_0, final(runtime).epoch->Some_0) && exists|
            transcript: RoundTranscript<E, T, R, N, S, D, ENVELOPE_BYTES>,
        | #[trigger]
            transcript.ends(
                old(runtime).shape,
                old(runtime).codec,
                old(runtime).security,
                old(runtime).epoch->Some_0,
                *envelope,
                old(runtime).healthy,
                final(runtime).healthy,
                pending_part(result),
            ) && transcript.leaves_lease(
                old(runtime).shape.profile,
                old(runtime).security,
                final(runtime).security,
            ) && transcript.leaves_epoch(
                old(runtime).shape.profile,
                old(runtime).epoch->Some_0,
                final(runtime).epoch->Some_0,
            ),
        result matches Ok(pending) ==> final(response_release).state is Pending
            && is_pending_round(
            pending,
            old(runtime).epoch->Some_0.serving_epoch,
            old(runtime).security.security_epoch_tag,
        ),
        result is Err ==> final(response_release).state == old(response_release).state,
{
    if stopped {
        return Err(UniformExternalFailure);
    }
    let release_permit = match response_release.begin_response() {
        Ok(permit) => permit,
        Err(_) => {
            return Err(UniformExternalFailure);
        },
    };
    if !runtime.healthy {
        release_permit.release(response_release);
        return Err(UniformExternalFailure);
    }
    let handled = runtime.handle_with_release_witness(envelope);
    let ghost encoded = crate::runtime::encoded_part(handled);
    match handled {
        Ok((round, serving_release_witness, security_release_witness)) => {
            let pending = PendingRuntimeRound {
                round,
                serving_release_witness,
                security_release_witness,
                release_decision: None,
                release_permit,
            };
            assert(encoded == pending_part::<C, ENVELOPE_BYTES>(Ok(pending)));
            Ok(pending)
        },
        Err(failure) => {
            release_permit.release(response_release);
            assert(encoded == pending_part::<C, ENVELOPE_BYTES>(Err(failure)));
            Err(failure)
        },
    }
}

/// Retires terminal runtime state without turning a busy rejection into cleanup.
pub fn retire_unhealthy_finalized_runtime_after_round<
    S: PrivateQueryEngine<D::Slot>,
    Q: PrivateQueryCodec<E, RESPONSE_SLOTS, ENVELOPE_BYTES>,
    E,
    T: ContinuationTokenProtector,
    R: ContinuationReplayGuard,
    N: RoundMaterialSource,
    C: ServingEpochCurrentness,
    D: FrozenRecentSnapshot,
    const RESPONSE_SLOTS: usize,
    const ENVELOPE_BYTES: usize,
>(
    runtime: &mut PrivateQueryRuntime<S, Q, E, T, R, N, C, D, RESPONSE_SLOTS, ENVELOPE_BYTES>,
    protected_response_pending: bool,
    response_release: &mut ResponseReleaseGate,
) -> (retired: bool)
    ensures
        retired == (!old(runtime).healthy
            && (protected_response_pending || old(response_release).state is Idle)),
        !retired ==> *final(runtime) == *old(runtime)
            && *final(response_release) == *old(response_release),
        retired ==> final(response_release).state is Closed && is_stopped(
            *old(runtime),
            *final(runtime),
        ),
{
    if runtime.healthy || (!protected_response_pending && !response_release.is_idle()) {
        return false;
    }
    response_release.close();
    runtime.retire_security_epoch();
    runtime.retire_epoch();
    true
}

/// Both epochs are retired; everything else is as it was.
pub open spec fn is_stopped<
    S: PrivateQueryEngine<D::Slot>,
    Q: PrivateQueryCodec<E, RESPONSE_SLOTS, ENVELOPE_BYTES>,
    E,
    T: ContinuationTokenProtector,
    R: ContinuationReplayGuard,
    N: RoundMaterialSource,
    C: ServingEpochCurrentness,
    D: FrozenRecentSnapshot,
    const RESPONSE_SLOTS: usize,
    const ENVELOPE_BYTES: usize,
>(
    before: PrivateQueryRuntime<S, Q, E, T, R, N, C, D, RESPONSE_SLOTS, ENVELOPE_BYTES>,
    after: PrivateQueryRuntime<S, Q, E, T, R, N, C, D, RESPONSE_SLOTS, ENVELOPE_BYTES>,
) -> bool {
    &&& is_retired(before.security.currentness, after.security.currentness)
    &&& after == (PrivateQueryRuntime {
        epoch: None,
        security: ActiveSecurityLease {
            currentness: after.security.currentness,
            ..before.security
        },
        ..before
    })
}

/// Stops a runtime: it takes no further request and no further epoch.
pub fn stop_finalized_runtime<
    S: PrivateQueryEngine<D::Slot>,
    Q: PrivateQueryCodec<E, RESPONSE_SLOTS, ENVELOPE_BYTES>,
    E,
    T: ContinuationTokenProtector,
    R: ContinuationReplayGuard,
    N: RoundMaterialSource,
    C: ServingEpochCurrentness,
    D: FrozenRecentSnapshot,
    const RESPONSE_SLOTS: usize,
    const ENVELOPE_BYTES: usize,
>(
    runtime: &mut PrivateQueryRuntime<S, Q, E, T, R, N, C, D, RESPONSE_SLOTS, ENVELOPE_BYTES>,
    stopped: &mut bool,
)
    ensures
        *final(stopped),
        is_stopped(*old(runtime), *final(runtime)),
{
    *stopped = true;
    runtime.retire_security_epoch();
    runtime.retire_epoch();
}

/// Stops a runtime once no response and no refresh is outstanding.
pub fn stop_finalized_runtime_after_responses<
    S: PrivateQueryEngine<D::Slot>,
    Q: PrivateQueryCodec<E, RESPONSE_SLOTS, ENVELOPE_BYTES>,
    E,
    T: ContinuationTokenProtector,
    R: ContinuationReplayGuard,
    N: RoundMaterialSource,
    C: ServingEpochCurrentness,
    D: FrozenRecentSnapshot,
    const RESPONSE_SLOTS: usize,
    const ENVELOPE_BYTES: usize,
>(
    runtime: &mut PrivateQueryRuntime<S, Q, E, T, R, N, C, D, RESPONSE_SLOTS, ENVELOPE_BYTES>,
    stopped: &mut bool,
    response_release: &mut ResponseReleaseGate,
) -> (result: Result<(), FinalizedRuntimeOwnerError>)
    ensures
        result is Ok <==> old(response_release).state is Idle || old(response_release).state is Closed,
        result is Ok ==> *final(stopped) && final(response_release).state is Closed && is_stopped(
            *old(runtime),
            *final(runtime),
        ),
        result is Err ==> *final(stopped) == *old(stopped)
            && *final(response_release) == *old(response_release)
            && *final(runtime) == *old(runtime),
{
    match response_release.stop() {
        Ok(()) => {},
        Err(error) => {
            return Err(error);
        },
    }
    stop_finalized_runtime(runtime, stopped);
    Ok(())
}

/// What every epoch of one owner is refreshed for, and whether one is published.
#[derive(Debug, Clone, Copy, PartialEq, Eq, Structural)]
pub struct RecentSnapshotRefreshController {
    pub network: PrivateNetwork,
    pub schema_version: u32,
    pub projection_epoch: u64,
    pub key_epoch: u64,
    pub published: bool,
}

impl RecentSnapshotRefreshController {
    /// The schema version and both epochs are named.
    pub open spec fn wf(self) -> bool {
        self.schema_version != 0 && self.projection_epoch != 0 && self.key_epoch != 0
    }

    /// A controller that has published nothing; one that names no schema version or no
    /// epoch is refused.
    pub fn new(
        network: PrivateNetwork,
        schema_version: u32,
        projection_epoch: u64,
        key_epoch: u64,
    ) -> (result: Result<Self, FinalizedRuntimeOwnerError>)
        ensures
            ({
                let controller = RecentSnapshotRefreshController {
                    network,
                    schema_version,
                    projection_epoch,
                    key_epoch,
                    published: false,
                };
                result == if controller.wf() {
                    Ok(controller)
                } else {
                    Err(FinalizedRuntimeOwnerError)
                }
            }),
    {
        if schema_version == 0 || projection_epoch == 0 || key_epoch == 0 {
            return Err(FinalizedRuntimeOwnerError);
        }
        Ok(
            RecentSnapshotRefreshController {
                network,
                schema_version,
                projection_epoch,
                key_epoch,
                published: false,
            },
        )
    }

    /// The identity is of the controller's network, schema version, projection epoch and
    /// key epoch.
    pub open spec fn agrees_with(self, identity: RecentSnapshotIdentity) -> bool {
        &&& identity.network_tag == self.network.spec_tag()
        &&& identity.schema_version == self.schema_version
        &&& identity.projection_epoch == self.projection_epoch
        &&& identity.key_epoch == self.key_epoch
    }

    /// How pinning ends: the captured epoch agrees with the controller and is of the block
    /// that the projection was sealed at, or it is not pinned.
    pub open spec fn pins<S, C, D>(
        self,
        projection: FinalizedProjection<S>,
        capture: ServingEpochCapture<C, D>,
        result: Result<ServingEpochLease<S, C, D>, FinalizedRuntimeOwnerError>,
    ) -> bool {
        let identity = capture.observation.identity;
        if self.agrees_with(identity) && crate::serving_epoch::is_at(
            identity,
            projection.checkpoint,
        ) {
            result matches Ok(lease) && ServingEpochLease::pins(projection, capture, Ok(lease))
        } else {
            result is Err
        }
    }

    /// Pins a sealed projection with what was captured of the chain for it.
    pub fn pin_serving_epoch<S, C, D>(
        &self,
        projection: FinalizedProjection<S>,
        capture: ServingEpochCapture<C, D>,
    ) -> (result: Result<ServingEpochLease<S, C, D>, FinalizedRuntimeOwnerError>)
        ensures
            self.pins(projection, capture, result),
    {
        let identity = capture.observation.identity;
        if identity.network_tag != self.network.tag() || identity.schema_version
            != self.schema_version || identity.projection_epoch != self.projection_epoch
            || identity.key_epoch != self.key_epoch {
            return Err(FinalizedRuntimeOwnerError);
        }
        match ServingEpochLease::pin(projection, capture) {
            Ok(lease) => Ok(lease),
            Err(error) => Err(coarsen_runtime_owner_error(error)),
        }
    }

    /// Withdraws the published epoch.
    pub fn invalidate_publication(&mut self)
        ensures
            *final(self) == (RecentSnapshotRefreshController { published: false, ..*old(self) }),
    {
        self.published = false;
    }
}

/// Process-lifetime owner for one controller and at most one active epoch.
pub struct FinalizedRuntimeOwner<
    S,
    Q,
    E,
    T,
    R,
    N,
    C,
    D,
    const RESPONSE_SLOTS: usize,
    const ENVELOPE_BYTES: usize,
> {
    pub controller: RecentSnapshotRefreshController,
    pub runtime: PrivateQueryRuntime<S, Q, E, T, R, N, C, D, RESPONSE_SLOTS, ENVELOPE_BYTES>,
    pub response_release: ResponseReleaseGate,
    pub stopped: bool,
}

impl<
    S: PrivateQueryEngine<D::Slot>,
    Q: PrivateQueryCodec<E, RESPONSE_SLOTS, ENVELOPE_BYTES>,
    E,
    T: ContinuationTokenProtector,
    R: ContinuationReplayGuard,
    N: RoundMaterialSource,
    C: ServingEpochCurrentness,
    D: FrozenRecentSnapshot,
    const RESPONSE_SLOTS: usize,
    const ENVELOPE_BYTES: usize,
> FinalizedRuntimeOwner<S, Q, E, T, R, N, C, D, RESPONSE_SLOTS, ENVELOPE_BYTES> {
    /// What every method keeps.
    pub open spec fn wf(self) -> bool {
        &&& self.runtime.wf()
        &&& self.controller.wf()
        &&& self.controller.key_epoch == self.runtime.security.key_epoch
    }

    /// How making an owner ends: the controller names what it refreshes for, and the runtime
    /// is bound to the lease and its session, or there is no owner.
    pub open spec fn is_made(
        network: PrivateNetwork,
        schema_version: u32,
        projection_epoch: u64,
        shape: CompiledQueryShape<RESPONSE_SLOTS, ENVELOPE_BYTES>,
        recent_snapshot_slots: usize,
        security: ActiveSecurityLease<E, T, R, N>,
        opened: Result<Q, InnerCodecError>,
        bound: Result<
            PrivateQueryRuntime<S, Q, E, T, R, N, C, D, RESPONSE_SLOTS, ENVELOPE_BYTES>,
            UniformExternalFailure,
        >,
        result: Result<Self, FinalizedRuntimeOwnerError>,
    ) -> bool {
        let controller = RecentSnapshotRefreshController {
            network,
            schema_version,
            projection_epoch,
            key_epoch: security.key_epoch,
            published: false,
        };
        if controller.wf() {
            &&& PrivateQueryRuntime::<
                S,
                Q,
                E,
                T,
                R,
                N,
                C,
                D,
                RESPONSE_SLOTS,
                ENVELOPE_BYTES,
            >::opens(shape, recent_snapshot_slots, security, opened, bound)
            &&& match (bound, result) {
                (Ok(runtime), Ok(owner)) => {
                    &&& owner.controller == controller
                    &&& owner.runtime == runtime
                    &&& owner.response_release.state is Idle
                    &&& !owner.stopped
                },
                (Err(_), Err(_)) => true,
                _ => false,
            }
        } else {
            result is Err
        }
    }

    /// An owner with no epoch yet: it refuses every request until it is refreshed.
    pub fn new(
        network: PrivateNetwork,
        schema_version: u32,
        projection_epoch: u64,
        shape: CompiledQueryShape<RESPONSE_SLOTS, ENVELOPE_BYTES>,
        recent_snapshot_slots: usize,
        security: ActiveSecurityLease<E, T, R, N>,
    ) -> (result: Result<Self, FinalizedRuntimeOwnerError>)
        requires
            shape.wf(),
            security.replay_guard.guard_wf(),
        ensures
            result matches Ok(owner) ==> owner.wf(),
            exists|
                opened: Result<Q, InnerCodecError>,
                bound: Result<
                    PrivateQueryRuntime<S, Q, E, T, R, N, C, D, RESPONSE_SLOTS, ENVELOPE_BYTES>,
                    UniformExternalFailure,
                >,
            | #[trigger]
                Self::is_made(
                    network,
                    schema_version,
                    projection_epoch,
                    shape,
                    recent_snapshot_slots,
                    security,
                    opened,
                    bound,
                    result,
                ),
    {
        let controller = match RecentSnapshotRefreshController::new(
            network,
            schema_version,
            projection_epoch,
            security.key_epoch(),
        ) {
            Ok(controller) => controller,
            Err(error) => {
                assert(Self::is_made(
                    network,
                    schema_version,
                    projection_epoch,
                    shape,
                    recent_snapshot_slots,
                    security,
                    arbitrary(),
                    arbitrary(),
                    Err(error),
                ));
                return Err(error);
            },
        };
        let made = PrivateQueryRuntime::without_epoch(shape, recent_snapshot_slots, security);
        let ghost bound = made;
        let ghost opened = choose|opened: Result<Q, InnerCodecError>| #[trigger]
            PrivateQueryRuntime::<
                S,
                Q,
                E,
                T,
                R,
                N,
                C,
                D,
                RESPONSE_SLOTS,
                ENVELOPE_BYTES,
            >::opens(shape, recent_snapshot_slots, security, opened, bound);
        let runtime = match made {
            Ok(runtime) => runtime,
            Err(error) => {
                let error = coarsen_runtime_owner_error(error);
                assert(Self::is_made(
                    network,
                    schema_version,
                    projection_epoch,
                    shape,
                    recent_snapshot_slots,
                    security,
                    opened,
                    bound,
                    Err(error),
                ));
                return Err(error);
            },
        };
        let owner = FinalizedRuntimeOwner {
            controller,
            runtime,
            response_release: ResponseReleaseGate::new(),
            stopped: false,
        };
        assert(Self::is_made(
            network,
            schema_version,
            projection_epoch,
            shape,
            recent_snapshot_slots,
            security,
            opened,
            bound,
            Ok(owner),
        ));
        Ok(owner)
    }

    /// A refresh may begin: nothing is outstanding, and the owner neither stopped nor
    /// failed.
    pub open spec fn may_refresh(self) -> bool {
        self.response_release.state is Idle && !self.stopped && self.runtime.healthy
    }

    /// What the first half of a refresh leaves of an owner.
    pub open spec fn after_refresh_begins(self) -> Self {
        if !(self.response_release.state is Idle) {
            self
        } else {
            FinalizedRuntimeOwner {
                controller: if self.may_refresh() {
                    self.controller
                } else {
                    RecentSnapshotRefreshController { published: false, ..self.controller }
                },
                runtime: PrivateQueryRuntime { epoch: None, ..self.runtime },
                response_release: ResponseReleaseGate {
                    state: if self.may_refresh() {
                        ResponseReleaseState::Refreshing
                    } else {
                        ResponseReleaseState::Idle
                    },
                },
                ..self
            }
        }
    }

    /// First half of a refresh: takes the exclusion and retires the prior epoch.
    ///
    /// While a response is outstanding it is refused before anything changes. A
    /// stopped or unhealthy owner retires its epoch and its publication.
    pub fn begin_refresh(&mut self) -> (result: Result<
        ResponseReleasePermit,
        FinalizedRuntimeOwnerError,
    >)
        requires
            old(self).wf(),
        ensures
            final(self).wf(),
            *final(self) == old(self).after_refresh_begins(),
            result is Ok <==> old(self).may_refresh(),
            result matches Ok(permit) ==> permit.held is Refreshing,
    {
        let permit = match self.response_release.begin_refresh() {
            Ok(permit) => permit,
            Err(error) => {
                return Err(error);
            },
        };
        match retire_before_replacement(&mut self.runtime, self.stopped) {
            Ok(()) => Ok(permit),
            Err(error) => {
                self.controller.invalidate_publication();
                permit.release(&mut self.response_release);
                Err(error)
            },
        }
    }

    /// How a refresh ends: what was captured is pinned with the projection, if the two and
    /// the controller agree, and the epoch that is then served is built from that lease.
    pub open spec fn refreshes(
        self,
        projection: FinalizedProjection<S::Store>,
        capture: Result<ServingEpochCapture<C, D>, FinalizedRuntimeOwnerError>,
        candidate: Result<ServingEpochLease<S::Store, C, D>, FinalizedRuntimeOwnerError>,
        epoch: Option<crate::runtime::PrivateQueryRuntimeEpoch<S, C, D>>,
    ) -> bool {
        &&& match capture {
            Ok(capture) => self.controller.pins(projection, capture, candidate),
            Err(_) => candidate is Err,
        }
        &&& replacement_ends(self.runtime, candidate, epoch)
    }

    /// Second half of a refresh, with the projection to serve and what was captured for it.
    ///
    /// A capture of another network, schema version, projection epoch or key epoch, or of
    /// another block than the projection's, leaves no epoch and no publication; so does one
    /// that cannot be served.
    pub fn complete_refresh(
        &mut self,
        permit: ResponseReleasePermit,
        projection: FinalizedProjection<S::Store>,
        capture: Result<ServingEpochCapture<C, D>, FinalizedRuntimeOwnerError>,
    ) -> (result: Result<(), FinalizedRuntimeOwnerError>)
        requires
            old(self).wf(),
            old(self).runtime.epoch is None,
        ensures
            final(self).wf(),
            result is Ok <==> final(self).runtime.epoch is Some,
            final(self).runtime == (PrivateQueryRuntime {
                epoch: final(self).runtime.epoch,
                ..old(self).runtime
            }),
            exists|candidate: Result<ServingEpochLease<S::Store, C, D>, FinalizedRuntimeOwnerError>|
                #[trigger]
                old(self).refreshes(
                    projection,
                    capture,
                    candidate,
                    final(self).runtime.epoch,
                ),
            final(self).controller == (RecentSnapshotRefreshController {
                published: result is Ok,
                ..old(self).controller
            }),
            final(self).response_release.state == crate::release_gate::gate_after_release(
                old(self).response_release.state,
                permit.held,
            ),
            final(self).stopped == old(self).stopped,
    {
        let pinned = match capture {
            Ok(capture) => self.controller.pin_serving_epoch(projection, capture),
            Err(error) => Err(error),
        };
        let ghost candidate = pinned;
        let result = activate_replacement(&mut self.runtime, pinned);
        assert(old(self).refreshes(projection, capture, candidate, self.runtime.epoch));
        if result.is_err() {
            self.controller.invalidate_publication();
        } else {
            self.controller.published = true;
        }
        permit.release(&mut self.response_release);
        result
    }

    /// Gives a refresh up before it has a candidate; the retired epoch stays retired.
    pub fn abandon_refresh(&mut self, permit: ResponseReleasePermit)
        requires
            old(self).wf(),
        ensures
            final(self).wf(),
            final(self).runtime == old(self).runtime,
            final(self).controller == old(self).controller,
            final(self).stopped == old(self).stopped,
            final(self).response_release.state == crate::release_gate::gate_after_release(
                old(self).response_release.state,
                permit.held,
            ),
    {
        permit.release(&mut self.response_release);
    }

    /// A request reaches the owner's runtime.
    pub open spec fn admits(self) -> bool {
        is_admitted(self.runtime, self.stopped, self.response_release.state)
    }

    /// A round that left the runtime unhealthy lets everything go.
    pub open spec fn lets_go(before: Self, after: Self, answered: bool) -> bool {
        !after.runtime.healthy && (answered || before.response_release.state is Idle)
    }

    /// What one request leaves of an owner, besides what its round's providers replied.
    ///
    /// An owner that lets go has no epoch, no publication, a retired security epoch and
    /// a closed exclusion. Otherwise an answer holds the exclusion until its release is
    /// decided, and a refusal leaves the exclusion as it was.
    pub open spec fn settles(before: Self, after: Self, answered: bool) -> bool {
        &&& after.stopped == before.stopped
        &&& after.runtime.shape == before.runtime.shape
        &&& after.runtime.codec == before.runtime.codec
        &&& PrivateQueryRuntime::<
            S,
            Q,
            E,
            T,
            R,
            N,
            C,
            D,
            RESPONSE_SLOTS,
            ENVELOPE_BYTES,
        >::keeps_lease(
            ActiveSecurityLease {
                currentness: after.runtime.security.currentness,
                ..before.runtime.security
            },
            after.runtime.security,
        )
        &&& !before.admits() ==> !answered && after.runtime.healthy == before.runtime.healthy
            && after.runtime.security == (ActiveSecurityLease {
            currentness: after.runtime.security.currentness,
            ..before.runtime.security
        })
        &&& if Self::lets_go(before, after, answered) {
            &&& after.response_release.state is Closed
            &&& after.runtime.epoch is None
            &&& after.controller == (RecentSnapshotRefreshController {
                published: false,
                ..before.controller
            })
            &&& is_retired(
                before.runtime.security.currentness,
                after.runtime.security.currentness,
            )
        } else {
            &&& after.controller == before.controller
            &&& after.runtime.security.currentness == before.runtime.security.currentness
            &&& after.response_release.state == if answered {
                ResponseReleaseState::Pending
            } else {
                before.response_release.state
            }
            &&& if before.admits() {
                after.runtime.epoch is Some && PrivateQueryRuntime::<
                    S,
                    Q,
                    E,
                    T,
                    R,
                    N,
                    C,
                    D,
                    RESPONSE_SLOTS,
                    ENVELOPE_BYTES,
                >::keeps_epoch(before.runtime.epoch->Some_0, after.runtime.epoch->Some_0)
            } else {
                after.runtime.epoch == before.runtime.epoch
            }
        }
    }

    /// Everything that one admitted request's round did, and what it left.
    pub open spec fn runs(
        before: Self,
        envelope: [u8; ENVELOPE_BYTES],
        transcript: RoundTranscript<E, T, R, N, S, D, ENVELOPE_BYTES>,
        encoded: Result<EncodedRuntimeRound<ENVELOPE_BYTES>, UniformExternalFailure>,
        after: Self,
    ) -> bool {
        &&& transcript.ends(
            before.runtime.shape,
            before.runtime.codec,
            before.runtime.security,
            before.runtime.epoch->Some_0,
            envelope,
            before.runtime.healthy,
            after.runtime.healthy,
            encoded,
        )
        &&& transcript.leaves_lease(
            before.runtime.shape.profile,
            before.runtime.security,
            after.runtime.security,
        )
        &&& after.runtime.epoch is Some ==> transcript.leaves_epoch(
            before.runtime.shape.profile,
            before.runtime.epoch->Some_0,
            after.runtime.epoch->Some_0,
        )
    }

    /// Runs one round, and lets go of everything if it left the runtime unhealthy.
    ///
    /// The response of such a round cannot be released: the exclusion is closed and
    /// its security epoch retired.
    pub fn handle(&mut self, envelope: &[u8; ENVELOPE_BYTES]) -> (result: Result<
        PendingRuntimeRound<C, ENVELOPE_BYTES>,
        UniformExternalFailure,
    >)
        requires
            old(self).wf(),
        ensures
            final(self).wf(),
            Self::settles(*old(self), *final(self), result is Ok),
            old(self).admits() ==> exists|
                transcript: RoundTranscript<E, T, R, N, S, D, ENVELOPE_BYTES>,
            | #[trigger]
                Self::runs(*old(self), *envelope, transcript, pending_part(result), *final(self)),
            result matches Ok(pending) ==> is_pending_round(
                pending,
                old(self).runtime.epoch->Some_0.serving_epoch,
                old(self).runtime.security.security_epoch_tag,
            ),
    {
        let result = handle_finalized_runtime_round(
            &mut self.runtime,
            self.stopped,
            &mut self.response_release,
            envelope,
        );
        let ghost handled = self.runtime;
        if retire_unhealthy_finalized_runtime_after_round(
            &mut self.runtime,
            result.is_ok(),
            &mut self.response_release,
        ) {
            self.controller.invalidate_publication();
        }
        proof {
            if old(self).admits() {
                let transcript = choose|
                    transcript: RoundTranscript<E, T, R, N, S, D, ENVELOPE_BYTES>,
                | #[trigger]
                    transcript.ends(
                        old(self).runtime.shape,
                        old(self).runtime.codec,
                        old(self).runtime.security,
                        old(self).runtime.epoch->Some_0,
                        *envelope,
                        old(self).runtime.healthy,
                        handled.healthy,
                        pending_part(result),
                    ) && transcript.leaves_lease(
                        old(self).runtime.shape.profile,
                        old(self).runtime.security,
                        handled.security,
                    ) && transcript.leaves_epoch(
                        old(self).runtime.shape.profile,
                        old(self).runtime.epoch->Some_0,
                        handled.epoch->Some_0,
                    );
                assert(Self::runs(*old(self), *envelope, transcript, pending_part(result), *self));
            }
        }
        result
    }

    /// One page query: a request in, a pending response or a coarse failure out.
    pub fn query_page(&mut self, request: [u8; ENVELOPE_BYTES]) -> (result: Result<
        PendingRuntimeRound<C, ENVELOPE_BYTES>,
        PrivateQueryUnavailable,
    >)
        requires
            old(self).wf(),
        ensures
            final(self).wf(),
            Self::settles(*old(self), *final(self), result is Ok),
            old(self).admits() ==> exists|
                transcript: RoundTranscript<E, T, R, N, S, D, ENVELOPE_BYTES>,
            | #[trigger]
                Self::runs(*old(self), request, transcript, answered_part(result), *final(self)),
            result matches Ok(pending) ==> is_pending_round(
                pending,
                old(self).runtime.epoch->Some_0.serving_epoch,
                old(self).runtime.security.security_epoch_tag,
            ),
    {
        let handled = self.handle(&request);
        let ghost encoded = pending_part(handled);
        match handled {
            Ok(pending) => {
                assert(encoded == answered_part::<C, ENVELOPE_BYTES>(Ok(pending)));
                Ok(pending)
            },
            Err(_) => {
                assert(encoded == answered_part::<C, ENVELOPE_BYTES>(Err(PrivateQueryUnavailable)));
                Err(PrivateQueryUnavailable)
            },
        }
    }

    /// Stops the owner once no response and no refresh is outstanding.
    pub fn shutdown(&mut self) -> (result: Result<(), FinalizedRuntimeOwnerError>)
        requires
            old(self).wf(),
        ensures
            final(self).wf(),
            result is Ok <==> old(self).response_release.state is Idle || old(self).response_release.state is Closed,
            result is Err ==> *final(self) == *old(self),
            result is Ok ==> final(self).stopped && final(self).response_release.state is Closed
                && final(self).controller == (RecentSnapshotRefreshController {
                published: false,
                ..old(self).controller
            }) && is_stopped(
                old(self).runtime,
                final(self).runtime,
            ),
    {
        match stop_finalized_runtime_after_responses(
            &mut self.runtime,
            &mut self.stopped,
            &mut self.response_release,
        ) {
            Ok(()) => {},
            Err(error) => {
                return Err(error);
            },
        }
        self.controller.invalidate_publication();
        Ok(())
    }

    /// Closes the exclusion and retires the security epoch, whatever is outstanding.
    ///
    /// An owner is closed before it is let go, so a detached response can no
    /// longer be released.
    pub fn close(&mut self)
        requires
            old(self).wf(),
        ensures
            final(self).wf(),
            final(self).response_release.state is Closed,
            is_retired(
                old(self).runtime.security.currentness,
                final(self).runtime.security.currentness,
            ),
            final(self).runtime == (PrivateQueryRuntime {
                security: ActiveSecurityLease {
                    currentness: final(self).runtime.security.currentness,
                    ..old(self).runtime.security
                },
                ..old(self).runtime
            }),
            final(self).controller == old(self).controller,
            final(self).stopped == old(self).stopped,
    {
        self.response_release.close();
        self.runtime.retire_security_epoch();
    }

    /// Redacted rendering for logs.
    pub fn debug_text(&self) -> (text: &'static str)
        ensures
            text@ == "FinalizedRuntimeOwner { ..REDACTED.. }"@,
    {
        "FinalizedRuntimeOwner { ..REDACTED.. }"
    }
}

} // verus!
