//! The runtime that a server holds: one owner and what a wallet may be told of it.

use crate::composition::finalized_runtime_owner;
use crate::composition::LeaseTranscript;
use crate::composition::ProtectorSuite;
use crate::composition::RuntimeDeployment;
use crate::composition::RuntimeKeyMaterial;
use crate::continuation::ContinuationReplayGuard;
use crate::failure::PrivateQueryUnavailable;
use crate::instances::InstanceSource;
use crate::private_service::FinalizedProjection;
use crate::private_service::PrivateRuntimeDeployment;
use crate::private_service::PrivateRuntimeKeys;
use crate::private_service::ReleasableSessionKeys;
use crate::private_service::SessionBootstrap;
use crate::private_service::PRIVATE_PROFILE_ID_BYTES;
use crate::profile::CompiledQueryShape;
use crate::profile::PrivacyProfile;
use crate::profile::ProfileMismatch;
use crate::providers::ContinuationTokenProtector;
use crate::providers::FrozenRecentSnapshot;
use crate::providers::PrivateQueryCodec;
use crate::providers::PrivateQueryEngine;
use crate::providers::ServingEpochCurrentness;
use crate::record_protector::OsJournalRecordNonces;
use crate::record_protector::XChaCha20ReplayJournalRecordProtector;
use crate::release_gate::FinalizedRuntimeOwnerError;
use crate::release_gate::ResponseReleasePermit;
use crate::replay_store::ReplayJournalFiles;
use crate::replay_store::ReplayJournalStore;
use crate::round::InnerCodecError;
use crate::runtime::PrivateQueryRuntime;
use crate::runtime_owner::FinalizedRuntimeOwner;
use crate::runtime_owner::PendingRuntimeRound;
use crate::runtime_owner::RecentSnapshotRefreshController;
use crate::security_owner::ActiveSecurityLease;
use crate::security_owner::OsEntropy;
use crate::security_owner::OwnedRoundMaterialSource;
use crate::security_owner::RoundMaterialSource;
use crate::security_owner::SystemRoundClock;
use crate::serving_epoch::ServingEpochCapture;
use crate::serving_epoch::ServingEpochLease;
use vstd::prelude::*;

verus! {

/// Bundles the composed runtime with the session-bootstrap material captured
/// when it was composed.
///
/// The token key and the journal key never reach this type.
pub struct MainnetRuntime<
    S,
    Q,
    E,
    T,
    R,
    N,
    C,
    D,
    const RESPONSE_SLOTS: usize,
    const ENVELOPE_BYTES: usize,
> {
    pub inner: FinalizedRuntimeOwner<S, Q, E, T, R, N, C, D, RESPONSE_SLOTS, ENVELOPE_BYTES>,
    pub key_epoch: u64,
    pub session_keys: ReleasableSessionKeys,
    pub profile_label: &'static str,
    pub profile_id: [u8; PRIVATE_PROFILE_ID_BYTES],
}

impl<
    S: PrivateQueryEngine<D::Slot>,
    Q: PrivateQueryCodec<E, RESPONSE_SLOTS, ENVELOPE_BYTES>,
    E,
    T: ContinuationTokenProtector,
    R: ContinuationReplayGuard,
    N: RoundMaterialSource,
    C: ServingEpochCurrentness,
    D: FrozenRecentSnapshot,
    const RESPONSE_SLOTS: usize,
    const ENVELOPE_BYTES: usize,
> MainnetRuntime<S, Q, E, T, R, N, C, D, RESPONSE_SLOTS, ENVELOPE_BYTES> {
    /// What every method keeps: the bootstrap is of the composed runtime.
    pub open spec fn wf(self) -> bool {
        &&& self.inner.wf()
        &&& self.key_epoch == self.inner.runtime.security.key_epoch
        &&& self.profile_id == self.inner.runtime.shape.profile.profile_id
    }

    /// Answers one page query; without an epoch every request is refused.
    pub fn query_page(&mut self, request: [u8; ENVELOPE_BYTES]) -> (result: Result<
        PendingRuntimeRound<C, ENVELOPE_BYTES>,
        PrivateQueryUnavailable,
    >)
        requires
            old(self).wf(),
        ensures
            final(self).wf(),
            *final(self) == (MainnetRuntime { inner: final(self).inner, ..*old(self) }),
            FinalizedRuntimeOwner::<
                S,
                Q,
                E,
                T,
                R,
                N,
                C,
                D,
                RESPONSE_SLOTS,
                ENVELOPE_BYTES,
            >::settles(old(self).inner, final(self).inner, result is Ok),
            old(self).inner.admits() ==> exists|
                transcript: crate::runtime::RoundTranscript<E, T, R, N, S, D, ENVELOPE_BYTES>,
            | #[trigger]
                FinalizedRuntimeOwner::<
                    S,
                    Q,
                    E,
                    T,
                    R,
                    N,
                    C,
                    D,
                    RESPONSE_SLOTS,
                    ENVELOPE_BYTES,
                >::runs(
                    old(self).inner,
                    request,
                    transcript,
                    crate::runtime_owner::answered_part(result),
                    final(self).inner,
                ),
            result matches Ok(pending) ==> crate::runtime_owner::is_pending_round(
                pending,
                old(self).inner.runtime.epoch->Some_0.serving_epoch,
                old(self).inner.runtime.security.security_epoch_tag,
            ),
    {
        self.inner.query_page(request)
    }

    /// First half of a refresh: retires the prior epoch.
    ///
    /// A refused refresh never falls back to stale state.
    pub fn begin_refresh(&mut self) -> (result: Result<
        ResponseReleasePermit,
        PrivateQueryUnavailable,
    >)
        requires
            old(self).wf(),
        ensures
            final(self).wf(),
            *final(self) == (MainnetRuntime {
                inner: old(self).inner.after_refresh_begins(),
                ..*old(self)
            }),
            result is Ok <==> old(self).inner.may_refresh(),
            result matches Ok(permit) ==> permit.held is Refreshing,
    {
        match self.inner.begin_refresh() {
            Ok(permit) => Ok(permit),
            Err(_) => Err(PrivateQueryUnavailable),
        }
    }

    /// Second half of a refresh: pins what was captured, or leaves no epoch.
    pub fn complete_refresh(
        &mut self,
        permit: ResponseReleasePermit,
        projection: FinalizedProjection<S::Store>,
        capture: Result<ServingEpochCapture<C, D>, FinalizedRuntimeOwnerError>,
    ) -> (result: Result<(), PrivateQueryUnavailable>)
        requires
            old(self).wf(),
            old(self).inner.runtime.epoch is None,
        ensures
            final(self).wf(),
            *final(self) == (MainnetRuntime { inner: final(self).inner, ..*old(self) }),
            result is Ok <==> final(self).inner.runtime.epoch is Some,
            final(self).inner.runtime == (PrivateQueryRuntime {
                epoch: final(self).inner.runtime.epoch,
                ..old(self).inner.runtime
            }),
            exists|candidate: Result<ServingEpochLease<S::Store, C, D>, FinalizedRuntimeOwnerError>|
                #[trigger]
                old(self).inner.refreshes(
                    projection,
                    capture,
                    candidate,
                    final(self).inner.runtime.epoch,
                ),
            final(self).inner.controller == (RecentSnapshotRefreshController {
                published: result is Ok,
                ..old(self).inner.controller
            }),
            final(self).inner.response_release.state == crate::release_gate::gate_after_release(
                old(self).inner.response_release.state,
                permit.held,
            ),
            final(self).inner.stopped == old(self).inner.stopped,
    {
        match self.inner.complete_refresh(permit, projection, capture) {
            Ok(()) => Ok(()),
            Err(_) => Err(PrivateQueryUnavailable),
        }
    }

    /// Stops serving once every in-flight response has been released.
    pub fn shutdown(&mut self) -> (result: Result<(), PrivateQueryUnavailable>)
        requires
            old(self).wf(),
        ensures
            final(self).wf(),
            *final(self) == (MainnetRuntime { inner: final(self).inner, ..*old(self) }),
            result is Ok <==> old(self).inner.response_release.state is Idle || old(
                self,
            ).inner.response_release.state is Closed,
            result is Err ==> *final(self) == *old(self),
            result is Ok ==> final(self).inner.stopped
                && final(self).inner.response_release.state is Closed
                && final(self).inner.controller == (
            RecentSnapshotRefreshController { published: false, ..old(self).inner.controller })
                && crate::runtime_owner::is_stopped(
                old(self).inner.runtime,
                final(self).inner.runtime,
            ),
    {
        match self.inner.shutdown() {
            Ok(()) => Ok(()),
            Err(_) => Err(PrivateQueryUnavailable),
        }
    }

    /// What a wallet needs to seal and open envelopes under the live key epoch.
    ///
    /// Available whether or not an epoch has been pinned.
    pub fn session_bootstrap(&self) -> (bootstrap: SessionBootstrap)
        ensures
            bootstrap.key_epoch == self.key_epoch,
            bootstrap.keys == self.session_keys,
            bootstrap.profile_label == self.profile_label,
            bootstrap.profile_id == self.profile_id,
    {
        SessionBootstrap {
            key_epoch: self.key_epoch,
            keys: ReleasableSessionKeys {
                request_key: self.session_keys.request_key,
                response_key: self.session_keys.response_key,
            },
            profile_label: self.profile_label,
            profile_id: self.profile_id,
        }
    }

    /// Redacted rendering for logs.
    pub fn debug_text(&self) -> (text: &'static str)
        ensures
            text@ == "MainnetRuntime { ..REDACTED.. }"@,
    {
        "MainnetRuntime { ..REDACTED.. }"
    }
}

/// Composes one process-lifetime runtime over the compiled profile.
///
/// It serves nothing until it is refreshed. Composition opens the deployment's
/// replay journal, so a failure here is a durable-state failure.
pub fn mainnet_private_query_runtime<
    S: PrivateQueryEngine<D::Slot>,
    C: ServingEpochCurrentness,
    D: FrozenRecentSnapshot,
    F: ReplayJournalFiles,
    P: ProtectorSuite<Envelope = E, Token = T>,
    Q: PrivateQueryCodec<E, RESPONSE_SLOTS, ENVELOPE_BYTES>,
    E,
    T: ContinuationTokenProtector,
    const RESPONSE_SLOTS: usize,
    const ENVELOPE_BYTES: usize,
>(
    deployment: &PrivateRuntimeDeployment,
    keys: PrivateRuntimeKeys,
    profile: Result<PrivacyProfile, ProfileMismatch>,
    profile_label: &'static str,
    files: F,
    journal_domain: Vec<u8>,
    suite: &P,
    instances: &mut InstanceSource,
) -> (result: Result<
    MainnetRuntime<
        S,
        Q,
        E,
        T,
        ReplayJournalStore<
            F,
            XChaCha20ReplayJournalRecordProtector<P::JournalKey, OsJournalRecordNonces>,
        >,
        OwnedRoundMaterialSource<OsEntropy, SystemRoundClock>,
        C,
        D,
        RESPONSE_SLOTS,
        ENVELOPE_BYTES,
    >,
    PrivateQueryUnavailable,
>)
    ensures
        profile is Err || profile->Ok_0.response_slots != RESPONSE_SLOTS
            || profile->Ok_0.envelope_bytes != ENVELOPE_BYTES
            || profile->Ok_0.recent_snapshot_slots != RESPONSE_SLOTS
            || deployment.projection.key_epoch == 0 || deployment.projection.schema_version == 0
            || deployment.projection.projection_epoch == 0 || deployment.owner_generation == 0
            || crate::bytes::is_zero(deployment.service_namespace_id@) || old(instances)@ + 2
            > u64::MAX ==> result is Err,
        final(instances)@ == if profile is Err || profile->Ok_0.response_slots != RESPONSE_SLOTS
            || profile->Ok_0.envelope_bytes != ENVELOPE_BYTES {
            old(instances)@
        } else {
            crate::instances::after_drawing(old(instances)@, 2)
        },
        result matches Ok(runtime) ==> {
            &&& runtime.wf()
            &&& runtime.key_epoch == deployment.projection.key_epoch
            &&& runtime.session_keys.request_key == keys.request_key
            &&& runtime.session_keys.response_key == keys.response_key
            &&& runtime.profile_label == profile_label
            &&& runtime.profile_id == profile->Ok_0.profile_id
            &&& runtime.inner.runtime.shape.profile == profile->Ok_0
            &&& Q::may_open(
                runtime.inner.runtime.shape,
                runtime.inner.runtime.security.session_binding,
                Ok(runtime.inner.runtime.codec),
            )
            &&& runtime.inner.runtime.epoch is None
            &&& !runtime.inner.stopped
            &&& runtime.inner.controller.network == deployment.projection.network
            &&& runtime.inner.controller.schema_version == deployment.projection.schema_version
            &&& runtime.inner.controller.projection_epoch == deployment.projection.projection_epoch
            &&& runtime.inner.runtime.healthy
            &&& runtime.inner.response_release.state is Idle
            &&& !runtime.inner.controller.published
            &&& exists|composed: RuntimeDeployment, material: RuntimeKeyMaterial| #[trigger]
                crate::composition::lease_is_composed(
                    composed,
                    profile->Ok_0,
                    files,
                    journal_domain@,
                    *suite,
                    material,
                    old(instances)@,
                    runtime.inner.runtime.security,
                ) && deployment.deploys(composed) && keys.makes(material)
        },
        result is Err ==> profile is Err || profile->Ok_0.response_slots != RESPONSE_SLOTS
            || profile->Ok_0.envelope_bytes != ENVELOPE_BYTES
            || profile->Ok_0.recent_snapshot_slots != RESPONSE_SLOTS
            || profile->Ok_0.store_reads + profile->Ok_0.recent_snapshot_slots > usize::MAX
            || deployment.projection.schema_version == 0 || deployment.projection.projection_epoch
            == 0 || old(instances)@ + 2 > u64::MAX || (exists|
            composed: RuntimeDeployment,
            material: RuntimeKeyMaterial,
            opened: Result<Q, InnerCodecError>,
            lease: ActiveSecurityLease<
                E,
                T,
                ReplayJournalStore<
                    F,
                    XChaCha20ReplayJournalRecordProtector<P::JournalKey, OsJournalRecordNonces>,
                >,
                OwnedRoundMaterialSource<OsEntropy, SystemRoundClock>,
            >,
        | #[trigger]
            crate::composition::codec_is_refused::<F, P, Q, E, T, RESPONSE_SLOTS, ENVELOPE_BYTES>(
                composed,
                CompiledQueryShape { profile: profile->Ok_0 },
                files,
                journal_domain@,
                *suite,
                material,
                old(instances)@,
                lease,
                opened,
            ) && deployment.deploys(composed) && keys.makes(material)) || exists|
            composed: RuntimeDeployment,
            material: RuntimeKeyMaterial,
            transcript: LeaseTranscript<F, P::JournalKey>,
        | #[trigger]
            crate::composition::lease_is_refused(
                composed,
                profile->Ok_0,
                files,
                journal_domain@,
                *suite,
                material,
                transcript,
            ) && deployment.deploys(composed) && keys.makes(material),
{
    let profile = match profile {
        Ok(profile) => profile,
        Err(_) => {
            return Err(PrivateQueryUnavailable);
        },
    };
    let session_keys = keys.releasable();
    let key_epoch: u64 = deployment.projection.key_epoch;
    let profile_id = *profile.profile_id();
    let shape = match CompiledQueryShape::<RESPONSE_SLOTS, ENVELOPE_BYTES>::new(profile) {
        Ok(shape) => shape,
        Err(_) => {
            return Err(PrivateQueryUnavailable);
        },
    };
    let runtime_deployment = deployment.runtime_deployment();
    let material = keys.material();
    match finalized_runtime_owner(
        &runtime_deployment,
        deployment.projection.network,
        deployment.projection.schema_version,
        deployment.projection.projection_epoch,
        shape,
        RESPONSE_SLOTS,
        files,
        journal_domain,
        suite,
        material,
        instances,
    ) {
        Ok(inner) => Ok(
            MainnetRuntime { inner, key_epoch, session_keys, profile_label, profile_id },
        ),
        Err(_) => Err(PrivateQueryUnavailable),
    }
}

} // verus!
