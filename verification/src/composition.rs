//! Composition of one runtime's security providers.
//!
//! Every provider is injected where it is used, so that it stays testable in
//! isolation. Here the choices are made once: authenticated encryption for
//! envelopes, tokens and journal records, the operating-system generator for
//! nonces and lease bindings, the host clock for a round's time, and a
//! crash-durable local replay journal.
//!
//! Key custody, trusted time and rollback resistance are left to the caller.

use crate::bytes::append;
use crate::bytes::append_u16;
use crate::bytes::append_u64;
use crate::digest::blake2s256_digest;
use crate::failure::UniformExternalFailure;
use crate::instances::InstanceNumber;
use crate::instances::InstanceSource;
use crate::profile::CompiledQueryShape;
use crate::profile::PrivacyProfile;
use crate::providers::ContinuationTokenProtector;
use crate::providers::FrozenRecentSnapshot;
use crate::providers::PrivateQueryCodec;
use crate::providers::PrivateQueryEngine;
use crate::providers::ServingEpochCurrentness;
use crate::record_protector::record_protector;
use crate::record_protector::OsJournalRecordNonces;
use crate::record_protector::XChaCha20ProtectionKey;
use crate::record_protector::XChaCha20ReplayJournalRecordProtector;
use crate::records::PrivateNetwork;
use crate::replay_journal::ReplayJournalLimits;
use crate::replay_record::ReplayJournalProtectionContext;
use crate::replay_store::ReplayJournalFiles;
use crate::replay_store::ReplayJournalStore;
use crate::replay_store::ReplayJournalStoreError;
use crate::round::InnerCodecError;
use crate::runtime_owner::FinalizedRuntimeOwner;
use crate::secret::clear_key;
use crate::secret::PRIVATE_RUNTIME_KEY_BYTES;
use crate::security_owner::ActiveSecurityLease;
use crate::security_owner::BindingDraws;
use crate::security_owner::OsEntropy;
use crate::security_owner::OwnedRoundMaterialSource;
use crate::security_owner::ReplayNamespaceSeed;
use crate::security_owner::SecurityLeaseIdentity;
use crate::security_owner::SystemRoundClock;
use crate::security_state::PROFILE_ID_BYTES;
use vstd::prelude::*;

verus! {

/// `zaino-oram/replay-journal/protection-context/v1`
pub const PROTECTION_CONTEXT_DOMAIN: [u8; 47] = [
    0x7a, 0x61, 0x69, 0x6e, 0x6f, 0x2d, 0x6f, 0x72, 0x61, 0x6d, 0x2f, 0x72,
    0x65, 0x70, 0x6c, 0x61, 0x79, 0x2d, 0x6a, 0x6f, 0x75, 0x72, 0x6e, 0x61,
    0x6c, 0x2f, 0x70, 0x72, 0x6f, 0x74, 0x65, 0x63, 0x74, 0x69, 0x6f, 0x6e,
    0x2d, 0x63, 0x6f, 0x6e, 0x74, 0x65, 0x78, 0x74, 0x2f, 0x76, 0x31,
];

pub const PROTECTION_CONTEXT_VERSION: u16 = 1;

/// The four long-lived keys one runtime owns.
///
/// They arrive already derived: this module fixes how each is used, not where
/// it comes from.
pub struct RuntimeKeyMaterial {
    pub request_key: [u8; PRIVATE_RUNTIME_KEY_BYTES],
    pub response_key: [u8; PRIVATE_RUNTIME_KEY_BYTES],
    pub token_key: [u8; PRIVATE_RUNTIME_KEY_BYTES],
    pub replay_journal_key: [u8; PRIVATE_RUNTIME_KEY_BYTES],
}

impl RuntimeKeyMaterial {
    /// Clears all four keys.
    pub fn wipe(&mut self)
        ensures
            crate::bytes::is_zero(final(self).request_key@),
            crate::bytes::is_zero(final(self).response_key@),
            crate::bytes::is_zero(final(self).token_key@),
            crate::bytes::is_zero(final(self).replay_journal_key@),
    {
        clear_key(&mut self.request_key);
        clear_key(&mut self.response_key);
        clear_key(&mut self.token_key);
        clear_key(&mut self.replay_journal_key);
    }
}

/// Deployment identity and durable location that must survive a restart.
///
/// The owner generation and the key epoch separate one owner's state from its
/// predecessor's; a journal written under another pair is refused.
#[derive(Debug, Clone, PartialEq, Eq)]
pub struct RuntimeDeployment {
    pub service_namespace_id: [u8; 16],
    pub owner_generation: u64,
    pub key_epoch: u64,
    pub replay_journal_root: String,
}

/// Makes the protectors of one runtime from its keys.
pub trait ProtectorSuite: Sized {
    type Envelope;

    type Token: ContinuationTokenProtector;

    type JournalKey: XChaCha20ProtectionKey;

    /// The envelope protectors that these keys may give.
    open spec fn protects_envelopes(
        self,
        request_key: Seq<u8>,
        response_key: Seq<u8>,
        protector: Self::Envelope,
    ) -> bool {
        true
    }

    /// The token protectors that this key may give.
    open spec fn protects_tokens(self, token_key: Seq<u8>, protector: Self::Token) -> bool {
        true
    }

    /// The journal keys that this key may give.
    open spec fn protects_records(self, record_key: Seq<u8>, key: Self::JournalKey) -> bool {
        true
    }

    fn envelope_protector(
        &self,
        request_key: &[u8; PRIVATE_RUNTIME_KEY_BYTES],
        response_key: &[u8; PRIVATE_RUNTIME_KEY_BYTES],
    ) -> (protector: Self::Envelope)
        ensures
            self.protects_envelopes(request_key@, response_key@, protector),
    ;

    fn token_protector(&self, token_key: &[u8; PRIVATE_RUNTIME_KEY_BYTES]) -> (protector:
        Self::Token)
        ensures
            self.protects_tokens(token_key@, protector),
    ;

    fn journal_key(&self, record_key: &[u8; PRIVATE_RUNTIME_KEY_BYTES]) -> (key: Self::JournalKey)
        ensures
            self.protects_records(record_key@, key),
    ;
}

/// Everything that the journal's record protection is bound to.
pub open spec fn protection_preimage(
    service_namespace_id: Seq<u8>,
    owner_generation: u64,
    key_epoch: u64,
    profile_id: Seq<u8>,
) -> Seq<u8> {
    PROTECTION_CONTEXT_DOMAIN@ + crate::bytes::u16_be(PROTECTION_CONTEXT_VERSION) + profile_id
        + service_namespace_id + crate::bytes::u64_be(owner_generation) + crate::bytes::u64_be(
        key_epoch,
    )
}

/// Binds the journal's record protection to one exact deployment and profile.
///
/// Records sealed for one profile or owner generation cannot authenticate under
/// another, so a journal carried across either boundary fails at its first
/// record.
pub fn protection_context(
    deployment: &RuntimeDeployment,
    profile_id: &[u8; PROFILE_ID_BYTES],
) -> (context: ReplayJournalProtectionContext)
    ensures
        context.0@ == crate::digest::blake2s256(
            protection_preimage(
                deployment.service_namespace_id@,
                deployment.owner_generation,
                deployment.key_epoch,
                profile_id@,
            ),
        ),
{
    let mut preimage: Vec<u8> = Vec::new();
    append(&mut preimage, PROTECTION_CONTEXT_DOMAIN.as_slice());
    append_u16(&mut preimage, PROTECTION_CONTEXT_VERSION);
    append(&mut preimage, profile_id.as_slice());
    append(&mut preimage, deployment.service_namespace_id.as_slice());
    append_u64(&mut preimage, deployment.owner_generation);
    append_u64(&mut preimage, deployment.key_epoch);
    assert(preimage@ =~= protection_preimage(
        deployment.service_namespace_id@,
        deployment.owner_generation,
        deployment.key_epoch,
        profile_id@,
    ));
    ReplayJournalProtectionContext::new(blake2s256_digest(preimage.as_slice()))
}

/// Two deployments and profiles are bound by the same bytes only if they are the
/// same, but for where the journal lies.
pub proof fn protection_binds_deployment_and_profile(
    namespace: [u8; 16],
    generation: u64,
    key_epoch: u64,
    profile_id: [u8; PROFILE_ID_BYTES],
    other_namespace: [u8; 16],
    other_generation: u64,
    other_key_epoch: u64,
    other_profile_id: [u8; PROFILE_ID_BYTES],
)
    requires
        protection_preimage(namespace@, generation, key_epoch, profile_id@) == protection_preimage(
            other_namespace@,
            other_generation,
            other_key_epoch,
            other_profile_id@,
        ),
    ensures
        namespace == other_namespace,
        generation == other_generation,
        key_epoch == other_key_epoch,
        profile_id == other_profile_id,
{
    let left = protection_preimage(namespace@, generation, key_epoch, profile_id@);
    let right = protection_preimage(
        other_namespace@,
        other_generation,
        other_key_epoch,
        other_profile_id@,
    );
    let start: int = PROTECTION_CONTEXT_DOMAIN@.len() + 2int;
    assert(left.subrange(start, start + 16) =~= profile_id@);
    assert(right.subrange(start, start + 16) =~= other_profile_id@);
    assert(left.subrange(start + 16, start + 32) =~= namespace@);
    assert(right.subrange(start + 16, start + 32) =~= other_namespace@);
    assert(left.subrange(start + 32, start + 40) =~= crate::bytes::u64_be(generation));
    assert(right.subrange(start + 32, start + 40) =~= crate::bytes::u64_be(other_generation));
    assert(left.subrange(start + 40, start + 48) =~= crate::bytes::u64_be(key_epoch));
    assert(right.subrange(start + 40, start + 48) =~= crate::bytes::u64_be(other_key_epoch));
    crate::bytes::lemma_array_extensional(profile_id, other_profile_id);
    crate::bytes::lemma_array_extensional(namespace, other_namespace);
    crate::bytes::lemma_u64_round_trip(generation);
    crate::bytes::lemma_u64_round_trip(other_generation);
    crate::bytes::lemma_u64_round_trip(key_epoch);
    crate::bytes::lemma_u64_round_trip(other_key_epoch);
}

/// How opening the journal of one deployment and profile ends.
pub open spec fn deployment_journal_opens<F: ReplayJournalFiles, K: XChaCha20ProtectionKey>(
    deployment: RuntimeDeployment,
    profile: PrivacyProfile,
    files: F,
    context: ReplayJournalProtectionContext,
    protector: XChaCha20ReplayJournalRecordProtector<K, OsJournalRecordNonces>,
    result: Result<
        ReplayJournalStore<F, XChaCha20ReplayJournalRecordProtector<K, OsJournalRecordNonces>>,
        ReplayJournalStoreError,
    >,
) -> bool {
    &&& context.0@ == crate::digest::blake2s256(
        protection_preimage(
            deployment.service_namespace_id@,
            deployment.owner_generation,
            deployment.key_epoch,
            profile.profile_id@,
        ),
    )
    &&& crate::journal_storage::opening_ends(
        files,
        ReplayJournalLimits { max_transactions: profile.replay_policy.transaction_capacity },
        profile.profile_id,
        context,
        protector,
        result,
    )
}

/// Opens the crash-durable replay journal for one deployment and profile.
pub fn open_replay_journal<F: ReplayJournalFiles, K: XChaCha20ProtectionKey>(
    deployment: &RuntimeDeployment,
    profile: &PrivacyProfile,
    files: F,
    journal_domain: Vec<u8>,
    journal_key: K,
    instance: InstanceNumber,
) -> (result: Result<
    ReplayJournalStore<F, XChaCha20ReplayJournalRecordProtector<K, OsJournalRecordNonces>>,
    UniformExternalFailure,
>)
    ensures
        result is Err ==> exists|
            context: ReplayJournalProtectionContext,
            protector: XChaCha20ReplayJournalRecordProtector<K, OsJournalRecordNonces>,
            error: ReplayJournalStoreError,
        | #[trigger]
            deployment_journal_opens(
                *deployment,
                *profile,
                files,
                context,
                protector,
                Err::<
                    ReplayJournalStore<
                        F,
                        XChaCha20ReplayJournalRecordProtector<K, OsJournalRecordNonces>,
                    >,
                    _,
                >(error),
            ) && protector.key == journal_key && protector.domain == journal_domain,
        result matches Ok(store) ==> {
            &&& deployment_journal_opens(
                *deployment,
                *profile,
                files,
                store.protection_context,
                store.protector,
                Ok(store),
            )
            &&& store.wf()
            &&& store.health is Ready
            &&& store.state.limits.max_transactions == profile.replay_policy.transaction_capacity
            &&& store.state.profile_id == profile.profile_id
            &&& store.protector.key == journal_key
            &&& store.protector.domain == journal_domain
            &&& store.instance_identity == instance@
            &&& store.protection_context.0@ == crate::digest::blake2s256(
                protection_preimage(
                    deployment.service_namespace_id@,
                    deployment.owner_generation,
                    deployment.key_epoch,
                    profile.profile_id@,
                ),
            )
        },
        crate::bytes::is_zero(profile.profile_id@) ==> result is Err,
{
    let protector = record_protector(journal_domain, journal_key, OsJournalRecordNonces);
    let ghost used = protector;
    let context = protection_context(deployment, profile.profile_id());
    let opened = ReplayJournalStore::open(files, profile, context, protector, instance);
    assert(deployment_journal_opens(*deployment, *profile, files, context, used, opened));
    match opened {
        Ok(store) => Ok(store),
        Err(_) => Err(UniformExternalFailure),
    }
}

/// A lease of this deployment and profile: each key went to one protector only, the
/// journal is the deployment's own, the session and the security epoch carry the
/// bindings that were minted for them, and the journal and the security epoch carry an
/// instance number each.
pub open spec fn lease_is_composed<F: ReplayJournalFiles, P: ProtectorSuite>(
    deployment: RuntimeDeployment,
    profile: PrivacyProfile,
    files: F,
    journal_domain: Seq<u8>,
    suite: P,
    keys: RuntimeKeyMaterial,
    first_instance: u64,
    lease: ActiveSecurityLease<
        P::Envelope,
        P::Token,
        ReplayJournalStore<
            F,
            XChaCha20ReplayJournalRecordProtector<P::JournalKey, OsJournalRecordNonces>,
        >,
        OwnedRoundMaterialSource<OsEntropy, SystemRoundClock>,
    >,
) -> bool {
    &&& lease.key_epoch == deployment.key_epoch
    &&& lease.profile_id == profile.profile_id
    &&& P::Token::may_derive_namespace(
        ReplayNamespaceSeed {
            service_namespace_id: deployment.service_namespace_id,
            protocol_version: crate::security_owner::RUNTIME_SECURITY_PROTOCOL_VERSION,
            owner_generation: deployment.owner_generation,
            key_epoch: deployment.key_epoch,
            profile_id: profile.profile_id,
            session_binding: lease.session_binding,
        },
        lease.replay_namespace,
    )
    &&& !crate::bytes::is_zero(lease.session_binding@)
    &&& !crate::bytes::is_zero(lease.security_epoch_tag.stable_binding@)
    &&& lease.security_epoch_tag.instance == first_instance + 1
    &&& exists|draws: BindingDraws<OsEntropy>, drawn: OsEntropy| #[trigger]
        SecurityLeaseIdentity::is_minted(
            deployment.key_epoch,
            deployment.service_namespace_id,
            deployment.owner_generation,
            OsEntropy,
            draws,
            drawn,
            Ok(
                (SecurityLeaseIdentity {
                    key_epoch: deployment.key_epoch,
                    session_binding: lease.session_binding,
                    service_namespace_id: deployment.service_namespace_id,
                    owner_generation: deployment.owner_generation,
                    security_epoch_binding: lease.security_epoch_tag.stable_binding,
                }),
            ),
        )
    &&& lease.currentness.is_current(lease.security_epoch_tag)
    &&& lease.currentness.observations == 0
    &&& suite.protects_envelopes(
        keys.request_key@,
        keys.response_key@,
        lease.envelope_protector,
    )
    &&& suite.protects_tokens(keys.token_key@, lease.token_protector)
    &&& suite.protects_records(keys.replay_journal_key@, lease.replay_guard.protector.key)
    &&& lease.replay_guard.protector.domain@ == journal_domain
    &&& deployment_journal_opens(
        deployment,
        profile,
        files,
        lease.replay_guard.protection_context,
        lease.replay_guard.protector,
        Ok(lease.replay_guard),
    )
    &&& lease.replay_guard.wf()
    &&& lease.replay_guard.health is Ready
    &&& lease.replay_guard.instance_identity == first_instance
    &&& lease.material_source.last_observed_seconds is None
    &&& lease.material_source.next_round == 0
}

/// What storage and the generator gave for a lease.
pub struct LeaseTranscript<F, K> {
    pub context: ReplayJournalProtectionContext,
    pub protector: XChaCha20ReplayJournalRecordProtector<K, OsJournalRecordNonces>,
    pub opened: Result<
        ReplayJournalStore<F, XChaCha20ReplayJournalRecordProtector<K, OsJournalRecordNonces>>,
        ReplayJournalStoreError,
    >,
    pub draws: BindingDraws<OsEntropy>,
    pub drawn: OsEntropy,
}

/// Why no lease was composed: the deployment's journal did not open, or no identity was
/// minted for the deployment.
pub open spec fn lease_is_refused<F: ReplayJournalFiles, P: ProtectorSuite>(
    deployment: RuntimeDeployment,
    profile: PrivacyProfile,
    files: F,
    journal_domain: Seq<u8>,
    suite: P,
    keys: RuntimeKeyMaterial,
    transcript: LeaseTranscript<F, P::JournalKey>,
) -> bool {
    &&& suite.protects_records(keys.replay_journal_key@, transcript.protector.key)
    &&& transcript.protector.domain@ == journal_domain
    &&& deployment_journal_opens(
        deployment,
        profile,
        files,
        transcript.context,
        transcript.protector,
        transcript.opened,
    )
    &&& transcript.opened is Ok ==> SecurityLeaseIdentity::is_minted(
        deployment.key_epoch,
        deployment.service_namespace_id,
        deployment.owner_generation,
        OsEntropy,
        transcript.draws,
        transcript.drawn,
        Err(UniformExternalFailure),
    )
}

/// Composes one runtime's complete security lease.
///
/// Each key goes to one protector only, and is cleared here once its protector
/// has it. The lease's two secret bindings are minted anew, so a restart never
/// resumes its predecessor's session or security epoch, even on the same
/// journal. The journal and the security epoch take the next two instance
/// numbers; without two left there is no lease.
pub fn security_lease<
    F: ReplayJournalFiles,
    P: ProtectorSuite,
    const RESPONSE_SLOTS: usize,
    const ENVELOPE_BYTES: usize,
>(
    deployment: &RuntimeDeployment,
    shape: CompiledQueryShape<RESPONSE_SLOTS, ENVELOPE_BYTES>,
    files: F,
    journal_domain: Vec<u8>,
    suite: &P,
    keys: RuntimeKeyMaterial,
    instances: &mut InstanceSource,
) -> (result: Result<
    ActiveSecurityLease<
        P::Envelope,
        P::Token,
        ReplayJournalStore<
            F,
            XChaCha20ReplayJournalRecordProtector<P::JournalKey, OsJournalRecordNonces>,
        >,
        OwnedRoundMaterialSource<OsEntropy, SystemRoundClock>,
    >,
    UniformExternalFailure,
>)
    ensures
        deployment.key_epoch == 0 || deployment.owner_generation == 0 || crate::bytes::is_zero(
            deployment.service_namespace_id@,
        ) || crate::bytes::is_zero(shape.profile.profile_id@) || old(instances)@ + 2
            > u64::MAX ==> result is Err,
        result matches Ok(lease) ==> lease_is_composed(
            *deployment,
            shape.profile,
            files,
            journal_domain@,
            *suite,
            keys,
            old(instances)@,
            lease,
        ),
        final(instances)@ == crate::instances::after_drawing(old(instances)@, 2),
        result is Err ==> old(instances)@ + 2 > u64::MAX || exists|
            transcript: LeaseTranscript<F, P::JournalKey>,
        | #[trigger]
            lease_is_refused(
                *deployment,
                shape.profile,
                files,
                journal_domain@,
                *suite,
                keys,
                transcript,
            ),
{
    let ghost given = keys;
    let ghost domain = journal_domain@;
    let ghost mut transcript: LeaseTranscript<F, P::JournalKey> = arbitrary();
    let mut keys = keys;
    let envelope_protector = suite.envelope_protector(&keys.request_key, &keys.response_key);
    let token_protector = suite.token_protector(&keys.token_key);
    let journal_key = suite.journal_key(&keys.replay_journal_key);
    keys.wipe();
    let journal_instance = instances.next_instance();
    let epoch_instance = instances.next_instance();
    let (journal_instance, epoch_instance) = match (journal_instance, epoch_instance) {
        (Some(journal_instance), Some(epoch_instance)) => (journal_instance, epoch_instance),
        _ => {
            return Err(UniformExternalFailure);
        },
    };
    let replay_guard = match open_replay_journal(
        deployment,
        shape.profile(),
        files,
        journal_domain,
        journal_key,
        journal_instance,
    ) {
        Ok(store) => store,
        Err(failure) => {
            proof {
                let (context, protector, error) = choose|
                    context: ReplayJournalProtectionContext,
                    protector: XChaCha20ReplayJournalRecordProtector<
                        P::JournalKey,
                        OsJournalRecordNonces,
                    >,
                    error: ReplayJournalStoreError,
                | #[trigger]
                    deployment_journal_opens(
                        *deployment,
                        shape.profile,
                        files,
                        context,
                        protector,
                        Err::<
                            ReplayJournalStore<
                                F,
                                XChaCha20ReplayJournalRecordProtector<
                                    P::JournalKey,
                                    OsJournalRecordNonces,
                                >,
                            >,
                            _,
                        >(error),
                    ) && protector.key == journal_key && protector.domain == journal_domain;
                transcript =
                LeaseTranscript { context, protector, opened: Err(error), ..transcript };
                assert(lease_is_refused(
                    *deployment,
                    shape.profile,
                    files,
                    domain,
                    *suite,
                    given,
                    transcript,
                ));
            }
            return Err(failure);
        },
    };
    let mut entropy = OsEntropy;
    let identity = match SecurityLeaseIdentity::mint(
        deployment.key_epoch,
        deployment.service_namespace_id,
        deployment.owner_generation,
        &mut entropy,
    ) {
        Ok(identity) => identity,
        Err(failure) => {
            proof {
                let draws = choose|draws: BindingDraws<OsEntropy>| #[trigger]
                    SecurityLeaseIdentity::is_minted(
                        deployment.key_epoch,
                        deployment.service_namespace_id,
                        deployment.owner_generation,
                        OsEntropy,
                        draws,
                        entropy,
                        Err(failure),
                    );
                transcript =
                LeaseTranscript {
                    context: replay_guard.protection_context,
                    protector: replay_guard.protector,
                    opened: Ok(replay_guard),
                    draws,
                    drawn: entropy,
                };
                assert(lease_is_refused(
                    *deployment,
                    shape.profile,
                    files,
                    domain,
                    *suite,
                    given,
                    transcript,
                ));
            }
            return Err(failure);
        },
    };
    Ok(
        ActiveSecurityLease::mint(
            &shape,
            identity,
            epoch_instance,
            envelope_protector,
            token_protector,
            replay_guard,
            OwnedRoundMaterialSource::new(OsEntropy, SystemRoundClock),
        ),
    )
}

/// Two leases composed one after the other with one instance source are never taken for
/// each other: neither their security epochs nor their journals are the same instance,
/// whatever deployment and bindings they share.
pub proof fn leases_of_one_source_stay_apart<F: ReplayJournalFiles, P: ProtectorSuite>(
    deployment: RuntimeDeployment,
    profile: PrivacyProfile,
    files: F,
    journal_domain: Seq<u8>,
    suite: P,
    keys: RuntimeKeyMaterial,
    first_instance: u64,
    lease: ActiveSecurityLease<
        P::Envelope,
        P::Token,
        ReplayJournalStore<
            F,
            XChaCha20ReplayJournalRecordProtector<P::JournalKey, OsJournalRecordNonces>,
        >,
        OwnedRoundMaterialSource<OsEntropy, SystemRoundClock>,
    >,
    later_deployment: RuntimeDeployment,
    later_profile: PrivacyProfile,
    later_files: F,
    later_domain: Seq<u8>,
    later_suite: P,
    later_keys: RuntimeKeyMaterial,
    later_instance: u64,
    later: ActiveSecurityLease<
        P::Envelope,
        P::Token,
        ReplayJournalStore<
            F,
            XChaCha20ReplayJournalRecordProtector<P::JournalKey, OsJournalRecordNonces>,
        >,
        OwnedRoundMaterialSource<OsEntropy, SystemRoundClock>,
    >,
)
    requires
        lease_is_composed(
            deployment,
            profile,
            files,
            journal_domain,
            suite,
            keys,
            first_instance,
            lease,
        ),
        lease_is_composed(
            later_deployment,
            later_profile,
            later_files,
            later_domain,
            later_suite,
            later_keys,
            later_instance,
            later,
        ),
        later_instance >= crate::instances::after_drawing(first_instance, 2),
    ensures
        lease.security_epoch_tag != later.security_epoch_tag,
        !later.currentness.is_current(lease.security_epoch_tag),
        lease.replay_guard.instance_identity != later.replay_guard.instance_identity,
{
}

/// The codec of a composed lease's session did not open.
pub open spec fn codec_is_refused<
    F: ReplayJournalFiles,
    P: ProtectorSuite<Envelope = E, Token = T>,
    Q: PrivateQueryCodec<E, RESPONSE_SLOTS, ENVELOPE_BYTES>,
    E,
    T: ContinuationTokenProtector,
    const RESPONSE_SLOTS: usize,
    const ENVELOPE_BYTES: usize,
>(
    deployment: RuntimeDeployment,
    shape: CompiledQueryShape<RESPONSE_SLOTS, ENVELOPE_BYTES>,
    files: F,
    journal_domain: Seq<u8>,
    suite: P,
    keys: RuntimeKeyMaterial,
    first_instance: u64,
    lease: ActiveSecurityLease<
        E,
        T,
        ReplayJournalStore<
            F,
            XChaCha20ReplayJournalRecordProtector<P::JournalKey, OsJournalRecordNonces>,
        >,
        OwnedRoundMaterialSource<OsEntropy, SystemRoundClock>,
    >,
    opened: Result<Q, InnerCodecError>,
) -> bool {
    &&& lease_is_composed(
        deployment,
        shape.profile,
        files,
        journal_domain,
        suite,
        keys,
        first_instance,
        lease,
    )
    &&& Q::may_open(shape, lease.session_binding, opened)
    &&& opened is Err
}

/// Builds one process-lifetime runtime owner over a composed security lease.
///
/// The owner has no serving epoch yet and refuses every request until one is
/// published: no request is served from an epoch that was never pinned.
pub fn finalized_runtime_owner<
    S: PrivateQueryEngine<D::Slot>,
    C: ServingEpochCurrentness,
    D: FrozenRecentSnapshot,
    F: ReplayJournalFiles,
    P: ProtectorSuite<Envelope = E, Token = T>,
    Q: PrivateQueryCodec<E, RESPONSE_SLOTS, ENVELOPE_BYTES>,
    E,
    T: ContinuationTokenProtector,
    const RESPONSE_SLOTS: usize,
    const ENVELOPE_BYTES: usize,
>(
    deployment: &RuntimeDeployment,
    network: PrivateNetwork,
    schema_version: u32,
    projection_epoch: u64,
    shape: CompiledQueryShape<RESPONSE_SLOTS, ENVELOPE_BYTES>,
    recent_snapshot_slots: usize,
    files: F,
    journal_domain: Vec<u8>,
    suite: &P,
    keys: RuntimeKeyMaterial,
    instances: &mut InstanceSource,
) -> (result: Result<
    FinalizedRuntimeOwner<
        S,
        Q,
        E,
        T,
        ReplayJournalStore<
            F,
            XChaCha20ReplayJournalRecordProtector<P::JournalKey, OsJournalRecordNonces>,
        >,
        OwnedRoundMaterialSource<OsEntropy, SystemRoundClock>,
        C,
        D,
        RESPONSE_SLOTS,
        ENVELOPE_BYTES,
    >,
    UniformExternalFailure,
>)
    requires
        shape.wf(),
    ensures
        deployment.key_epoch == 0 || deployment.owner_generation == 0 || crate::bytes::is_zero(
            deployment.service_namespace_id@,
        ) || crate::bytes::is_zero(shape.profile.profile_id@) || recent_snapshot_slots
            != shape.profile.recent_snapshot_slots || shape.profile.store_reads
            + shape.profile.recent_snapshot_slots > usize::MAX || schema_version == 0
            || projection_epoch == 0 || old(instances)@ + 2 > u64::MAX ==> result is Err,
        final(instances)@ == crate::instances::after_drawing(old(instances)@, 2),
        result matches Ok(owner) ==> {
            &&& owner.wf()
            &&& owner.runtime.shape == shape
            &&& Q::may_open(
                shape,
                owner.runtime.security.session_binding,
                Ok(owner.runtime.codec),
            )
            &&& owner.runtime.epoch is None
            &&& owner.runtime.healthy
            &&& !owner.stopped
            &&& owner.response_release.state is Idle
            &&& owner.controller.network == network
            &&& owner.controller.schema_version == schema_version
            &&& owner.controller.projection_epoch == projection_epoch
            &&& owner.controller.key_epoch == deployment.key_epoch
            &&& !owner.controller.published
            &&& lease_is_composed(
                *deployment,
                shape.profile,
                files,
                journal_domain@,
                *suite,
                keys,
                old(instances)@,
                owner.runtime.security,
            )
        },
        result is Err ==> recent_snapshot_slots != shape.profile.recent_snapshot_slots
            || shape.profile.store_reads + shape.profile.recent_snapshot_slots > usize::MAX
            || schema_version == 0 || projection_epoch == 0 || old(instances)@ + 2 > u64::MAX || (
        exists|
            opened: Result<Q, InnerCodecError>,
            lease: ActiveSecurityLease<
                E,
                T,
                ReplayJournalStore<
                    F,
                    XChaCha20ReplayJournalRecordProtector<P::JournalKey, OsJournalRecordNonces>,
                >,
                OwnedRoundMaterialSource<OsEntropy, SystemRoundClock>,
            >,
        | #[trigger]
            codec_is_refused::<F, P, Q, E, T, RESPONSE_SLOTS, ENVELOPE_BYTES>(
                *deployment,
                shape,
                files,
                journal_domain@,
                *suite,
                keys,
                old(instances)@,
                lease,
                opened,
            )) || exists|transcript: LeaseTranscript<F, P::JournalKey>| #[trigger]
            lease_is_refused(
                *deployment,
                shape.profile,
                files,
                journal_domain@,
                *suite,
                keys,
                transcript,
            ),
{
    let security = match security_lease(
        deployment,
        shape,
        files,
        journal_domain,
        suite,
        keys,
        instances,
    ) {
        Ok(security) => security,
        Err(failure) => {
            return Err(failure);
        },
    };
    let ghost lease = security;
    let made = FinalizedRuntimeOwner::new(
        network,
        schema_version,
        projection_epoch,
        shape,
        recent_snapshot_slots,
        security,
    );
    proof {
        let (opened, bound) = choose|
            opened: Result<Q, InnerCodecError>,
            bound: Result<
                crate::runtime::PrivateQueryRuntime<
                    S,
                    Q,
                    E,
                    T,
                    ReplayJournalStore<
                        F,
                        XChaCha20ReplayJournalRecordProtector<P::JournalKey, OsJournalRecordNonces>,
                    >,
                    OwnedRoundMaterialSource<OsEntropy, SystemRoundClock>,
                    C,
                    D,
                    RESPONSE_SLOTS,
                    ENVELOPE_BYTES,
                >,
                UniformExternalFailure,
            >,
        | #[trigger]
            FinalizedRuntimeOwner::is_made(
                network,
                schema_version,
                projection_epoch,
                shape,
                recent_snapshot_slots,
                lease,
                opened,
                bound,
                made,
            );
        assert(made is Err && opened is Err && schema_version != 0 && projection_epoch != 0
            && recent_snapshot_slots == shape.profile.recent_snapshot_slots
            && shape.profile.store_reads + shape.profile.recent_snapshot_slots <= usize::MAX
            ==> codec_is_refused::<F, P, Q, E, T, RESPONSE_SLOTS, ENVELOPE_BYTES>(
            *deployment,
            shape,
            files,
            journal_domain@,
            *suite,
            keys,
            old(instances)@,
            lease,
            opened,
        ));
    }
    match made {
        Ok(owner) => Ok(owner),
        Err(_) => Err(UniformExternalFailure),
    }
}

/// What a journal's protection is bound to is the domain, the two bytes of the version, the
/// profile, the service, the owner and the key epoch, in this order.
pub proof fn protection_is_bound_in_order(
    service_namespace_id: Seq<u8>,
    owner_generation: u64,
    key_epoch: u64,
    profile_id: Seq<u8>,
)
    requires
        service_namespace_id.len() == 16,
        profile_id.len() == 16,
    ensures
        ({
            let preimage = protection_preimage(
                service_namespace_id,
                owner_generation,
                key_epoch,
                profile_id,
            );
            let start = PROTECTION_CONTEXT_DOMAIN@.len() as int;
            &&& preimage.len() == start + 50
            &&& preimage.take(start) == PROTECTION_CONTEXT_DOMAIN@
            &&& preimage[start] == 0 && preimage[start + 1] == 1
            &&& preimage.subrange(start + 2, start + 18) == profile_id
            &&& preimage.subrange(start + 18, start + 34) == service_namespace_id
            &&& crate::bytes::be_u64(preimage.subrange(start + 34, start + 42)) == owner_generation
            &&& crate::bytes::be_u64(preimage.subrange(start + 42, start + 50)) == key_epoch
        }),
{
    let preimage = protection_preimage(
        service_namespace_id,
        owner_generation,
        key_epoch,
        profile_id,
    );
    let start = PROTECTION_CONTEXT_DOMAIN@.len() as int;
    assert(preimage.take(start) =~= PROTECTION_CONTEXT_DOMAIN@);
    assert(preimage.subrange(start + 2, start + 18) =~= profile_id);
    assert(preimage.subrange(start + 18, start + 34) =~= service_namespace_id);
    assert(preimage.subrange(start + 34, start + 42) =~= crate::bytes::u64_be(owner_generation));
    assert(preimage.subrange(start + 42, start + 50) =~= crate::bytes::u64_be(key_epoch));
    crate::bytes::lemma_u64_round_trip(owner_generation);
    crate::bytes::lemma_u64_round_trip(key_epoch);
}

/// A deployment's journal is opened under the profile's own capacity and identity, and under
/// a context that is taken over the deployment's service, owner and key epoch and the
/// profile.
pub proof fn journal_is_opened_for_its_deployment<F: ReplayJournalFiles, K: XChaCha20ProtectionKey>(
    deployment: RuntimeDeployment,
    profile: PrivacyProfile,
    files: F,
    context: ReplayJournalProtectionContext,
    protector: XChaCha20ReplayJournalRecordProtector<K, OsJournalRecordNonces>,
    result: Result<
        ReplayJournalStore<F, XChaCha20ReplayJournalRecordProtector<K, OsJournalRecordNonces>>,
        ReplayJournalStoreError,
    >,
)
    requires
        deployment_journal_opens(deployment, profile, files, context, protector, result),
    ensures
        context.0@ == crate::digest::blake2s256(
            PROTECTION_CONTEXT_DOMAIN@ + seq![0u8, 1u8] + profile.profile_id@
                + deployment.service_namespace_id@ + crate::bytes::u64_be(
                deployment.owner_generation,
            ) + crate::bytes::u64_be(deployment.key_epoch),
        ),
        exists|limits: ReplayJournalLimits| #[trigger]
            crate::journal_storage::opening_ends(
                files,
                limits,
                profile.profile_id,
                context,
                protector,
                result,
            ) && limits.max_transactions == profile.replay_policy.transaction_capacity,
{
    assert(crate::bytes::u16_be(1) =~= seq![0u8, 1u8]);
    assert(crate::journal_storage::opening_ends(
        files,
        (ReplayJournalLimits { max_transactions: profile.replay_policy.transaction_capacity }),
        profile.profile_id,
        context,
        protector,
        result,
    ));
}

/// A composed lease is its deployment's: of the deployment's key epoch and the profile, over
/// a namespace seeded with the deployment's service and owner and the lease's own session,
/// with each protector made from its own key, a journal of the deployment that is ready, an
/// active epoch of its own, and a source that has given no round yet.
pub proof fn composed_lease_is_of_its_deployment<F: ReplayJournalFiles, P: ProtectorSuite>(
    deployment: RuntimeDeployment,
    profile: PrivacyProfile,
    files: F,
    journal_domain: Seq<u8>,
    suite: P,
    keys: RuntimeKeyMaterial,
    first_instance: u64,
    lease: ActiveSecurityLease<
        P::Envelope,
        P::Token,
        ReplayJournalStore<
            F,
            XChaCha20ReplayJournalRecordProtector<P::JournalKey, OsJournalRecordNonces>,
        >,
        OwnedRoundMaterialSource<OsEntropy, SystemRoundClock>,
    >,
) -> (seed: ReplayNamespaceSeed)
    requires
        lease_is_composed(
            deployment,
            profile,
            files,
            journal_domain,
            suite,
            keys,
            first_instance,
            lease,
        ),
    ensures
        P::Token::may_derive_namespace(seed, lease.replay_namespace),
        seed.service_namespace_id == deployment.service_namespace_id,
        seed.protocol_version == 1,
        seed.owner_generation == deployment.owner_generation,
        seed.key_epoch == deployment.key_epoch,
        seed.profile_id == profile.profile_id,
        seed.session_binding == lease.session_binding,
        lease.key_epoch == deployment.key_epoch,
        lease.profile_id == profile.profile_id,
        lease.currentness.available,
        lease.currentness.active == Some(lease.security_epoch_tag),
        suite.protects_envelopes(keys.request_key@, keys.response_key@, lease.envelope_protector),
        suite.protects_tokens(keys.token_key@, lease.token_protector),
        suite.protects_records(keys.replay_journal_key@, lease.replay_guard.protector.key),
        lease.replay_guard.protector.domain@ == journal_domain,
        lease.replay_guard.health is Ready,
        lease.replay_guard.instance_identity != lease.security_epoch_tag.instance,
        lease.material_source.last_observed_seconds is None,
        lease.material_source.next_round == 0,
        exists|i: int| 0 <= i < 32 && #[trigger] lease.session_binding@[i] > 0,
        exists|i: int|
            0 <= i < 32 && #[trigger] lease.security_epoch_tag.stable_binding@[i] > 0,
{
    ReplayNamespaceSeed {
        service_namespace_id: deployment.service_namespace_id,
        protocol_version: crate::security_owner::RUNTIME_SECURITY_PROTOCOL_VERSION,
        owner_generation: deployment.owner_generation,
        key_epoch: deployment.key_epoch,
        profile_id: profile.profile_id,
        session_binding: lease.session_binding,
    }
}

/// A lease is refused only where the deployment's journal did not open, or the bindings were
/// not drawn, or the deployment or a binding is empty; both were asked for under the
/// deployment's own names and keys.
pub proof fn refused_lease_lacks_a_journal_or_an_identity<F: ReplayJournalFiles, P: ProtectorSuite>(
    deployment: RuntimeDeployment,
    profile: PrivacyProfile,
    files: F,
    journal_domain: Seq<u8>,
    suite: P,
    keys: RuntimeKeyMaterial,
    transcript: LeaseTranscript<F, P::JournalKey>,
)
    requires
        lease_is_refused(deployment, profile, files, journal_domain, suite, keys, transcript),
    ensures
        suite.protects_records(keys.replay_journal_key@, transcript.protector.key),
        transcript.protector.domain@ == journal_domain,
        transcript.opened is Err || transcript.draws.session_reply is Err
            || transcript.draws.epoch_reply is Err || deployment.key_epoch == 0
            || deployment.owner_generation == 0 || (forall|i: int|
            0 <= i < 16 ==> #[trigger] deployment.service_namespace_id@[i] == 0) || (forall|i: int|
            0 <= i < 32 ==> #[trigger] transcript.draws.session_binding@[i] == 0) || (forall|i: int|
            0 <= i < 32 ==> #[trigger] transcript.draws.epoch_binding@[i] == 0),
{
    journal_is_opened_for_its_deployment(
        deployment,
        profile,
        files,
        transcript.context,
        transcript.protector,
        transcript.opened,
    );
}

/// The domain of a protection context, in plain letters.
pub proof fn protection_domain_is_in_plain_letters()
    ensures
        PROTECTION_CONTEXT_DOMAIN@.map_values(|byte: u8| byte as char)
            == "zaino-oram/replay-journal/protection-context/v1"@,
{
    reveal_strlit("zaino-oram/replay-journal/protection-context/v1");
    assert(PROTECTION_CONTEXT_DOMAIN@.map_values(|byte: u8| byte as char)
        =~= "zaino-oram/replay-journal/protection-context/v1"@);
}

} // verus!
