use std::cell::Cell;
use std::rc::Rc;

use zaino_oram::composition::protection_context;
use zaino_oram::composition::security_lease;
use zaino_oram::composition::ProtectorSuite;
use zaino_oram::composition::RuntimeDeployment;
use zaino_oram::composition::RuntimeKeyMaterial;
use zaino_oram::continuation::ContinuationInspection;
use zaino_oram::continuation::ContinuationUse;
use zaino_oram::failure::PrivateQueryUnavailable;
use zaino_oram::failure::UniformExternalFailure;
use zaino_oram::instances::InstanceSource;
use zaino_oram::mainnet_runtime::mainnet_private_query_runtime;
use zaino_oram::mainnet_runtime::MainnetRuntime;
use zaino_oram::private_service::power_of_two;
use zaino_oram::private_service::private_mainnet_store_reads;
use zaino_oram::private_service::private_mainnet_timeout_bucket_millis;
use zaino_oram::private_service::EphemeralKeyGeneration;
use zaino_oram::private_service::FinalizedProjectionBuilder;
use zaino_oram::private_service::FixedProbeLayout;
use zaino_oram::private_service::OfflineProjectionOwner;
use zaino_oram::private_service::PrivateProjectionShape;
use zaino_oram::private_service::PrivateRuntimeDeployment;
use zaino_oram::private_service::PrivateRuntimeKeys;
use zaino_oram::private_service::ProjectionConfig;
use zaino_oram::private_service::ProjectionUnavailable;
use zaino_oram::private_service::PublicChainCheckpoint;
use zaino_oram::private_service::ReleasableSessionKeys;
use zaino_oram::private_service::PRIVATE_PROFILE_ID_BYTES;
use zaino_oram::private_service::QUEUE_CAPACITY;
use zaino_oram::profile::CompiledQueryShape;
use zaino_oram::profile::CompiledReplayPolicy;
use zaino_oram::profile::PrivacyProfile;
use zaino_oram::profile::ProfileMismatch;
use zaino_oram::protection::AuthenticationDecision;
use zaino_oram::protection::ProtectionUnavailable;
use zaino_oram::providers::ContinuationTokenProtector;
use zaino_oram::providers::EngineUnavailable;
use zaino_oram::providers::FrozenRecentSnapshot;
use zaino_oram::providers::PrivateQueryCodec;
use zaino_oram::providers::PrivateQueryEngine;
use zaino_oram::providers::ServingEpochCurrentness;
use zaino_oram::providers::ServingEpochObservation;
use zaino_oram::providers::ServingEpochUnavailable;
use zaino_oram::providers::SlotUnreadable;
use zaino_oram::record_files::ExactFileRead;
use zaino_oram::record_files::RealDirectoryError;
use zaino_oram::record_files::PathKind;
use zaino_oram::record_protector::OsJournalRecordNonces;
use zaino_oram::record_protector::XChaCha20ProtectionKey;
use zaino_oram::record_protector::XChaCha20ReplayJournalRecordProtector;
use zaino_oram::records::PrivateNetwork;
use zaino_oram::records::PrivateQueryCheckpoint;
use zaino_oram::records::RecentSnapshotIdentity;
use zaino_oram::records::UtxoQuery;
use zaino_oram::replay_store::ReplayJournalDirectory;
use zaino_oram::replay_store::ReplayJournalFiles;
use zaino_oram::replay_store::ReplayJournalPath;
use zaino_oram::replay_store::ReplayJournalStore;
use zaino_oram::replay_store::ENTRY_FILENAME_BYTES;
use zaino_oram::round::ContinuationExpectation;
use zaino_oram::round::ContinuationProtectionContext;
use zaino_oram::round::ContinuationState;
use zaino_oram::round::ContinuationToken;
use zaino_oram::round::DecodedRequest;
use zaino_oram::round::EngineExecution;
use zaino_oram::round::InnerCodecError;
use zaino_oram::round::PrivateQueryResponse;
use zaino_oram::round::SnapshotScan;
use zaino_oram::runtime_security::ContinuationReplayPlan;
use zaino_oram::runtime_security::RequestReplayKey;
use zaino_oram::secret::PRIVATE_RUNTIME_KEY_BYTES;
use zaino_oram::security_owner::OsEntropy;
use zaino_oram::security_owner::RoundEntropy;
use zaino_oram::security_owner::RoundMaterialUnavailable;
use zaino_oram::security_owner::OwnedRoundMaterialSource;
use zaino_oram::security_owner::ReplayNamespace;
use zaino_oram::security_owner::ReplayNamespaceSeed;
use zaino_oram::security_owner::SystemRoundClock;

const QUERY_SLOTS: usize = 4;
const ENVELOPE_BYTES: usize = 512;
const PROFILE_LABEL: &str = "utxo-history";

fn compiled_profile() -> Result<PrivacyProfile, ProfileMismatch> {
    Ok(PrivacyProfile {
        profile_id: [0x6d; PRIVATE_PROFILE_ID_BYTES],
        store_reads: 24,
        recent_snapshot_slots: QUERY_SLOTS,
        response_slots: QUERY_SLOTS,
        envelope_bytes: ENVELOPE_BYTES,
        continuation_ttl_seconds: 60,
        timeout_bucket_millis: 250,
        replay_policy: CompiledReplayPolicy {
            transaction_capacity: 1024,
            expiry_bucket_width_seconds: 60,
            garbage_collection_interval_seconds: 300,
        },
    })
}

fn store_reads() -> usize {
    private_mainnet_store_reads(&compiled_profile()).unwrap()
}

/// A shape wide enough for one compiled query.
fn shape(store_reads: usize) -> PrivateProjectionShape {
    let event_capacity = u64::try_from(store_reads)
        .unwrap_or(u64::MAX)
        .saturating_add(1)
        .next_power_of_two();
    PrivateProjectionShape {
        network: PrivateNetwork::Regtest,
        schema_version: 1,
        key_epoch: 7,
        projection_epoch: 11,
        max_seen_outputs: 64,
        max_live_outputs: 64,
        directory_admission: 3,
        event_admission: store_reads,
        max_events_per_address: store_reads,
        directory_capacity: 8,
        event_capacity,
    }
}

/// A build without an oblivious backend: nothing can be projected.
struct MissingBackend;

impl OfflineProjectionOwner for MissingBackend {
    type Block = u32;
    type Store = ();

    fn open(
        _config: ProjectionConfig,
        _layout: FixedProbeLayout,
        _queue_capacity: usize,
    ) -> Result<Self, ProjectionUnavailable> {
        Err(ProjectionUnavailable)
    }

    fn apply_finalized(
        &mut self,
        _block: &u32,
    ) -> Result<PublicChainCheckpoint, ProjectionUnavailable> {
        Err(ProjectionUnavailable)
    }

    fn finish(
        &mut self,
        _target: PublicChainCheckpoint,
    ) -> Result<PublicChainCheckpoint, ProjectionUnavailable> {
        Err(ProjectionUnavailable)
    }

    fn into_serving_store(self) -> Result<(), ProjectionUnavailable> {
        Err(ProjectionUnavailable)
    }

    fn shutdown(self) {}
}

/// Projects consecutive heights into a list of them.
struct HeightProjection {
    config: ProjectionConfig,
    layout: FixedProbeLayout,
    heights: Vec<u32>,
    sealed: bool,
}

fn checkpoint_at(height: u32) -> PublicChainCheckpoint {
    PublicChainCheckpoint {
        height,
        block_hash: [height as u8; 32],
    }
}

impl OfflineProjectionOwner for HeightProjection {
    type Block = u32;
    type Store = Vec<u32>;

    fn open(
        config: ProjectionConfig,
        layout: FixedProbeLayout,
        queue_capacity: usize,
    ) -> Result<Self, ProjectionUnavailable> {
        if queue_capacity != QUEUE_CAPACITY {
            return Err(ProjectionUnavailable);
        }
        Ok(Self {
            config,
            layout,
            heights: Vec::new(),
            sealed: false,
        })
    }

    fn apply_finalized(
        &mut self,
        block: &u32,
    ) -> Result<PublicChainCheckpoint, ProjectionUnavailable> {
        if *block as usize != self.heights.len() {
            return Err(ProjectionUnavailable);
        }
        self.heights.push(*block);
        Ok(checkpoint_at(*block))
    }

    fn finish(
        &mut self,
        target: PublicChainCheckpoint,
    ) -> Result<PublicChainCheckpoint, ProjectionUnavailable> {
        self.sealed = true;
        // A worker that was tampered with seals elsewhere.
        if self.layout.generation == 99 {
            return Ok(checkpoint_at(target.height + 1));
        }
        Ok(target)
    }

    fn into_serving_store(self) -> Result<Vec<u32>, ProjectionUnavailable> {
        if self.sealed && self.config.key_epoch != 98 {
            Ok(self.heights)
        } else {
            Err(ProjectionUnavailable)
        }
    }

    fn shutdown(self) {}
}

/// Without an oblivious backend there is no generation to serve.
#[test]
fn a_builder_refuses_to_start_without_the_typed_backend() {
    assert!(
        FinalizedProjectionBuilder::<MissingBackend>::start(
            &shape(store_reads()),
            &compiled_profile()
        )
        .is_err()
    );
}

#[test]
fn a_builder_seals_a_chain_into_a_serving_generation() {
    let mut builder = FinalizedProjectionBuilder::<HeightProjection>::start(
        &shape(store_reads()),
        &compiled_profile(),
    )
    .ok()
    .unwrap();

    for block in [0, 1, 2] {
        assert_eq!(builder.push(&block), Ok(()));
    }
    let projection = builder.finish().ok().unwrap();

    assert_eq!(projection.committed_height(), 2);
    assert_eq!(projection.store, vec![0, 1, 2]);
    assert_eq!(
        projection.debug_text(),
        "FinalizedProjection { ..REDACTED.. }"
    );
}

/// A projection narrower than one query's store reads cannot answer a single
/// round, so it must be refused before any chain work is done.
#[test]
fn a_projection_too_narrow_for_one_query_is_refused_up_front() {
    let mut narrow = shape(store_reads());
    narrow.max_events_per_address -= 1;

    assert!(
        FinalizedProjectionBuilder::<HeightProjection>::start(&narrow, &compiled_profile())
            .is_err()
    );
}

/// Finishing without a single applied block has no checkpoint to seal at.
#[test]
fn an_empty_builder_cannot_seal_a_generation() {
    let builder = FinalizedProjectionBuilder::<HeightProjection>::start(
        &shape(store_reads()),
        &compiled_profile(),
    )
    .ok()
    .unwrap();

    assert!(builder.finish().is_err());
}

#[test]
fn a_failed_builder_cannot_be_finished() {
    let start = |shape: &PrivateProjectionShape| {
        FinalizedProjectionBuilder::<HeightProjection>::start(shape, &compiled_profile())
            .ok()
            .unwrap()
    };
    let mut gap = start(&shape(store_reads()));
    assert_eq!(gap.push(&0), Ok(()));
    assert_eq!(gap.push(&2), Err(PrivateQueryUnavailable));
    assert_eq!(gap.push(&1), Err(PrivateQueryUnavailable));
    assert!(gap.finish().is_err());

    let mut elsewhere_shape = shape(store_reads());
    elsewhere_shape.projection_epoch = 99;
    let mut elsewhere = start(&elsewhere_shape);
    assert_eq!(elsewhere.push(&0), Ok(()));
    assert!(elsewhere.finish().is_err());

    let mut unyielding_shape = shape(store_reads());
    unyielding_shape.key_epoch = 98;
    let mut unyielding = start(&unyielding_shape);
    assert_eq!(unyielding.push(&0), Ok(()));
    assert!(unyielding.finish().is_err());

    let mut discarded = start(&shape(store_reads()));
    discarded.fail_and_discard();
    assert_eq!(discarded.push(&0), Err(PrivateQueryUnavailable));
}

/// A worker that applies even blocks only and counts how often it is shut down.
struct WatchedWorker {
    shutdowns: Rc<Cell<u32>>,
}

impl OfflineProjectionOwner for WatchedWorker {
    type Block = u32;
    type Store = ();

    fn open(
        _config: ProjectionConfig,
        _layout: FixedProbeLayout,
        _queue_capacity: usize,
    ) -> Result<Self, ProjectionUnavailable> {
        Err(ProjectionUnavailable)
    }

    fn apply_finalized(
        &mut self,
        block: &u32,
    ) -> Result<PublicChainCheckpoint, ProjectionUnavailable> {
        if *block % 2 == 0 {
            Ok(checkpoint_at(*block))
        } else {
            Err(ProjectionUnavailable)
        }
    }

    fn finish(
        &mut self,
        target: PublicChainCheckpoint,
    ) -> Result<PublicChainCheckpoint, ProjectionUnavailable> {
        Ok(target)
    }

    fn into_serving_store(self) -> Result<(), ProjectionUnavailable> {
        Ok(())
    }

    fn shutdown(self) {
        self.shutdowns.set(self.shutdowns.get() + 1);
    }
}

fn watched_builder() -> (FinalizedProjectionBuilder<WatchedWorker>, Rc<Cell<u32>>) {
    let shutdowns = Rc::new(Cell::new(0));
    let builder = FinalizedProjectionBuilder {
        owner: Some(WatchedWorker {
            shutdowns: shutdowns.clone(),
        }),
        latest: None,
    };
    (builder, shutdowns)
}

/// A worker is stopped where its builder lets it go unsealed, and nowhere else.
#[test]
fn an_abandoned_worker_is_shut_down_once() {
    let (builder, shutdowns) = watched_builder();
    assert!(builder.finish().is_err());
    assert_eq!(shutdowns.get(), 1);

    let (mut builder, shutdowns) = watched_builder();
    assert_eq!(builder.push(&4), Ok(()));
    assert_eq!(shutdowns.get(), 0);
    assert_eq!(builder.push(&5), Err(PrivateQueryUnavailable));
    assert_eq!(shutdowns.get(), 1);
    assert!(builder.owner.is_none());
    assert!(builder.latest == Some(checkpoint_at(4)));
    assert_eq!(builder.push(&6), Err(PrivateQueryUnavailable));
    assert!(builder.finish().is_err());
    assert_eq!(shutdowns.get(), 1);

    let (mut builder, shutdowns) = watched_builder();
    assert_eq!(builder.push(&4), Ok(()));
    builder.fail_and_discard();
    builder.fail_and_discard();
    assert_eq!(shutdowns.get(), 1);
    assert!(builder.latest == Some(checkpoint_at(4)));

    let (mut builder, shutdowns) = watched_builder();
    assert_eq!(builder.push(&4), Ok(()));
    assert_eq!(builder.push(&6), Ok(()));
    let projection = builder.finish().ok().unwrap();
    assert_eq!(projection.committed_height(), 6);
    assert_eq!(shutdowns.get(), 0);
}

#[test]
fn shapes_are_refused_for_each_rule_they_break() {
    let valid = shape(24);
    assert_eq!(valid.event_capacity, 32);
    assert!(valid.projection_config().is_ok());
    let layout = valid.layout().ok().unwrap();
    assert_eq!(layout.seed, valid.layout_seed());
    assert_eq!(layout.generation, 11);
    assert_eq!(layout.events.probes, 4);
    assert_eq!(layout.directory.admission, 3);

    for mutate in [
        (|shape: &mut PrivateProjectionShape| shape.schema_version = 0)
            as fn(&mut PrivateProjectionShape),
        |shape| shape.key_epoch = 0,
        |shape| shape.projection_epoch = 0,
    ] {
        let mut unnamed = valid;
        mutate(&mut unnamed);
        assert_eq!(
            unnamed.projection_config(),
            Err(PrivateQueryUnavailable)
        );
        assert!(unnamed.layout().is_err());
    }
    for mutate in [
        (|shape: &mut PrivateProjectionShape| shape.directory_capacity = 12)
            as fn(&mut PrivateProjectionShape),
        |shape| shape.directory_admission = 8,
        |shape| shape.event_capacity = 0,
        |shape| shape.event_admission = 32,
        |shape| shape.max_events_per_address = 25,
    ] {
        let mut unfit = valid;
        mutate(&mut unfit);
        assert!(unfit.projection_config().is_ok());
        assert!(unfit.layout().is_err());
        assert!(FinalizedProjectionBuilder::<HeightProjection>::start(
            &unfit,
            &compiled_profile()
        )
        .is_err());
    }
}

#[test]
fn layout_seeds_name_every_authoritative_dimension() {
    let base = shape(24);
    let seed = base.layout_seed();
    assert_eq!(shape(24).layout_seed(), seed);
    for mutate in [
        (|shape: &mut PrivateProjectionShape| shape.network = PrivateNetwork::Mainnet)
            as fn(&mut PrivateProjectionShape),
        |shape| shape.schema_version += 1,
        |shape| shape.key_epoch += 1,
        |shape| shape.projection_epoch += 1,
        |shape| shape.directory_capacity *= 2,
        |shape| shape.event_capacity *= 2,
        |shape| shape.max_seen_outputs += 1,
        |shape| shape.max_live_outputs += 1,
        |shape| shape.directory_admission += 1,
        |shape| shape.event_admission += 1,
        |shape| shape.max_events_per_address += 1,
    ] {
        let mut changed = base;
        mutate(&mut changed);
        assert_ne!(changed.layout_seed(), seed);
    }
}

#[test]
fn powers_of_two_are_recognized() {
    for exponent in 0..64 {
        assert!(power_of_two(1 << exponent));
    }
    for value in [0, 3, 5, 6, 12, 24, u64::MAX] {
        assert!(!power_of_two(value));
    }
}

#[test]
fn an_invalid_compiled_profile_serves_nothing() {
    let invalid = Err(ProfileMismatch);
    assert_eq!(
        private_mainnet_store_reads(&invalid),
        Err(PrivateQueryUnavailable)
    );
    assert_eq!(
        private_mainnet_timeout_bucket_millis(&invalid),
        Err(PrivateQueryUnavailable)
    );
    assert_eq!(private_mainnet_timeout_bucket_millis(&compiled_profile()), Ok(250));
    assert!(
        FinalizedProjectionBuilder::<HeightProjection>::start(&shape(24), &invalid).is_err()
    );
}

/// A directory that nothing was ever written to.
struct EmptyDirectory {
    root: PathKind,
}

impl ReplayJournalFiles for EmptyDirectory {
    type Staged = ();

    fn inspect(&mut self, path: ReplayJournalPath) -> PathKind {
        match path {
            ReplayJournalPath::Recovery => self.root,
            _ => PathKind::Missing,
        }
    }

    fn read_current(&mut self) -> ExactFileRead {
        ExactFileRead::Missing
    }

    fn read_entry(&mut self, _name: &[u8; ENTRY_FILENAME_BYTES]) -> ExactFileRead {
        ExactFileRead::Missing
    }

    fn ensure_real_directory(
        &mut self,
        _directory: ReplayJournalDirectory,
    ) -> Result<(), RealDirectoryError> {
        Err(RealDirectoryError::Io)
    }

    fn sync_directory(&mut self, _directory: ReplayJournalDirectory) -> bool {
        false
    }

    fn stage(&mut self, _record: &[u8]) -> Option<()> {
        None
    }

    fn replace_entry(&mut self, _staged: (), _name: &[u8; ENTRY_FILENAME_BYTES]) -> bool {
        false
    }

    fn sync_entry(&mut self, _name: &[u8; ENTRY_FILENAME_BYTES]) -> bool {
        false
    }

    fn replace_current(&mut self, _staged: ()) -> bool {
        false
    }
}

/// Remembers the key it was made from, and protects nothing.
struct RememberedKey([u8; PRIVATE_RUNTIME_KEY_BYTES]);

impl XChaCha20ProtectionKey for RememberedKey {
    fn seal(
        &self,
        _associated_data: &[u8],
        _nonce: &[u8; 24],
        _body: &mut [u8],
    ) -> Result<[u8; 16], ProtectionUnavailable> {
        Err(ProtectionUnavailable)
    }

    fn open(
        &self,
        _associated_data: &[u8],
        _nonce: &[u8; 24],
        _body: &mut [u8],
        _authentication: &[u8; 16],
    ) -> Result<AuthenticationDecision, ProtectionUnavailable> {
        Err(ProtectionUnavailable)
    }
}

/// Remembers the two envelope keys, and opens nothing.
struct RememberedEnvelopes {
    request_key: [u8; PRIVATE_RUNTIME_KEY_BYTES],
    response_key: [u8; PRIVATE_RUNTIME_KEY_BYTES],
}

/// Remembers the profile and the session that it was opened for.
struct RememberedSession {
    profile_id: [u8; PRIVATE_PROFILE_ID_BYTES],
    session_binding: [u8; 32],
}

impl PrivateQueryCodec<RememberedEnvelopes, QUERY_SLOTS, ENVELOPE_BYTES> for RememberedSession {
    fn open(
        shape: &CompiledQueryShape<QUERY_SLOTS, ENVELOPE_BYTES>,
        session_binding: [u8; 32],
    ) -> Result<Self, InnerCodecError> {
        Ok(Self {
            profile_id: *shape.profile().profile_id(),
            session_binding,
        })
    }

    fn decode_request_with_nonce(
        &self,
        _envelope: &[u8; ENVELOPE_BYTES],
        _protector: &mut RememberedEnvelopes,
    ) -> Result<DecodedRequest, InnerCodecError> {
        Err(InnerCodecError::AuthenticationFailed)
    }

    fn encode_response(
        &self,
        _response: &PrivateQueryResponse,
        _nonce: [u8; 24],
        _protector: &mut RememberedEnvelopes,
    ) -> Result<[u8; ENVELOPE_BYTES], InnerCodecError> {
        Err(InnerCodecError::ProtectionUnavailable)
    }

    fn bound_query_digest(
        &self,
        _query: &UtxoQuery,
        _snapshot_binding_digest: [u8; 32],
    ) -> [u8; 32] {
        [1; 32]
    }

    fn continuation_protection_context(
        &self,
        _checkpoint: &PrivateQueryCheckpoint,
    ) -> Result<ContinuationProtectionContext, InnerCodecError> {
        Err(InnerCodecError::InvalidShape)
    }
}

impl ContinuationTokenProtector for RememberedKey {
    fn derive_replay_namespace(seed: &ReplayNamespaceSeed) -> ReplayNamespace {
        ReplayNamespace(seed.session_binding)
    }

    fn inspect_optional(
        &mut self,
        _token: &Option<ContinuationToken>,
        _context: &ContinuationProtectionContext,
        _expectation: &ContinuationExpectation,
        _namespace: &ReplayNamespace,
        _request_nonce: [u8; 24],
    ) -> ContinuationInspection {
        ContinuationInspection {
            continuation_use: ContinuationUse::ProtectionUnavailable,
            request_key: RequestReplayKey([1; 32]),
            plan: ContinuationReplayPlan::Cover,
        }
    }

    fn issue(
        &mut self,
        _state: &ContinuationState,
        _context: &ContinuationProtectionContext,
    ) -> Result<ContinuationToken, ProtectionUnavailable> {
        Err(ProtectionUnavailable)
    }
}

struct RememberingSuite;

impl ProtectorSuite for RememberingSuite {
    type Envelope = RememberedEnvelopes;
    type Token = RememberedKey;
    type JournalKey = RememberedKey;

    fn envelope_protector(
        &self,
        request_key: &[u8; PRIVATE_RUNTIME_KEY_BYTES],
        response_key: &[u8; PRIVATE_RUNTIME_KEY_BYTES],
    ) -> RememberedEnvelopes {
        RememberedEnvelopes {
            request_key: *request_key,
            response_key: *response_key,
        }
    }

    fn token_protector(&self, token_key: &[u8; PRIVATE_RUNTIME_KEY_BYTES]) -> RememberedKey {
        RememberedKey(*token_key)
    }

    fn journal_key(&self, record_key: &[u8; PRIVATE_RUNTIME_KEY_BYTES]) -> RememberedKey {
        RememberedKey(*record_key)
    }
}

struct NoEngine;

impl PrivateQueryEngine<()> for NoEngine {
    type Store = ();

    fn open(_store: (), _profile: &PrivacyProfile) -> Result<Self, EngineUnavailable> {
        Err(EngineUnavailable)
    }

    fn slots_per_key(&self) -> usize {
        0
    }

    fn execute_from(
        &mut self,
        _query: &UtxoQuery,
        _cursor: usize,
        _recent: &Vec<()>,
    ) -> Result<EngineExecution, EngineUnavailable> {
        Err(EngineUnavailable)
    }
}

struct NoSnapshot;

impl NoSnapshot {
    fn nothing() -> SnapshotScan {
        SnapshotScan {
            slots: 0,
            identity: RecentSnapshotIdentity::new(0, 0, [0; 32], 0, 0, 0),
            content_digest: [0; 32],
            binding_digest: [0; 32],
        }
    }
}

impl FrozenRecentSnapshot for NoSnapshot {
    type Slot = ();

    fn dummy_slot(&self) {}

    fn read_slot(&mut self, _ordinal: usize) -> Result<(), SlotUnreadable> {
        Err(SlotUnreadable)
    }

    fn frozen(&self) -> SnapshotScan {
        Self::nothing()
    }

    fn describe(&self, _scanned: &Vec<()>) -> SnapshotScan {
        Self::nothing()
    }
}

struct NeverCurrent;

impl ServingEpochCurrentness for NeverCurrent {
    fn observe(&mut self) -> Result<ServingEpochObservation, ServingEpochUnavailable> {
        Err(ServingEpochUnavailable)
    }

    fn is_published(&mut self) -> bool {
        false
    }

    fn handle(&self) -> Self {
        NeverCurrent
    }
}

type TestRuntime = MainnetRuntime<
    NoEngine,
    RememberedSession,
    RememberedEnvelopes,
    RememberedKey,
    ReplayJournalStore<
        EmptyDirectory,
        XChaCha20ReplayJournalRecordProtector<RememberedKey, OsJournalRecordNonces>,
    >,
    OwnedRoundMaterialSource<OsEntropy, SystemRoundClock>,
    NeverCurrent,
    NoSnapshot,
    QUERY_SLOTS,
    ENVELOPE_BYTES,
>;

fn fresh_directory() -> EmptyDirectory {
    EmptyDirectory {
        root: PathKind::Missing,
    }
}

fn private_deployment(projection: PrivateProjectionShape) -> PrivateRuntimeDeployment {
    PrivateRuntimeDeployment {
        service_namespace_id: [0x55; 16],
        owner_generation: 1,
        replay_journal_root: "replay".to_string(),
        projection,
    }
}

fn compose_over(
    deployment: &PrivateRuntimeDeployment,
    keys: PrivateRuntimeKeys,
    profile: Result<PrivacyProfile, ProfileMismatch>,
    files: EmptyDirectory,
) -> Result<TestRuntime, PrivateQueryUnavailable> {
    mainnet_private_query_runtime(
        deployment,
        keys,
        profile,
        PROFILE_LABEL,
        files,
        b"journal-record".to_vec(),
        &RememberingSuite,
        &mut InstanceSource::new(),
    )
}

fn compose(
    deployment: &PrivateRuntimeDeployment,
    keys: PrivateRuntimeKeys,
) -> Result<TestRuntime, PrivateQueryUnavailable> {
    compose_over(deployment, keys, compiled_profile(), fresh_directory())
}

fn drawn() -> EphemeralKeyGeneration {
    EphemeralKeyGeneration::draw().ok().unwrap()
}

/// The composed runtime opens a replay journal and, having never pinned a
/// serving epoch, refuses every request.
#[test]
fn a_composed_runtime_refuses_every_request_before_its_first_refresh() {
    let mut runtime = compose(&private_deployment(shape(store_reads())), drawn().keys)
        .ok()
        .unwrap();

    assert!(runtime.query_page([0; ENVELOPE_BYTES]).is_err());
    assert_eq!(runtime.shutdown(), Ok(()));
    assert_eq!(runtime.debug_text(), "MainnetRuntime { ..REDACTED.. }");
}

/// Bootstrap material is available before the first refresh, and carries the
/// exact epoch and keys that the deployment was composed with.
#[test]
fn session_bootstrap_carries_the_composed_epoch_and_releasable_keys() {
    let mut deployment = private_deployment(shape(store_reads()));
    deployment.projection.key_epoch = 42;
    let keys = drawn().keys;
    let releasable_request_key = keys.request_key;
    let releasable_response_key = keys.response_key;

    let runtime = compose(&deployment, keys).ok().unwrap();
    let bootstrap = runtime.session_bootstrap();

    assert_eq!(bootstrap.key_epoch, 42);
    assert_eq!(bootstrap.keys.request_key, releasable_request_key);
    assert_eq!(bootstrap.keys.response_key, releasable_response_key);
    assert!(!bootstrap.profile_label.is_empty());
    // The authoritative identifier is the compiled profile's own digest, not
    // anything derived from the label.
    let profile = compiled_profile().unwrap();
    assert_eq!(bootstrap.profile_id.len(), PRIVATE_PROFILE_ID_BYTES);
    assert_eq!(&bootstrap.profile_id, profile.profile_id());
    assert_ne!(
        bootstrap.profile_id.as_slice(),
        bootstrap.profile_label.as_bytes(),
        "the label is not the identifier"
    );
    assert_eq!(
        bootstrap.debug_text(),
        "SessionBootstrap { ..REDACTED.. }"
    );
}

/// Four keys drawn in one call must not collide; a repeated key would
/// cross-authenticate two protection domains that are meant to be separate.
#[test]
fn ephemeral_keys_are_drawn_independently() {
    let generation = drawn();
    let keys = &generation.keys;

    assert_ne!(keys.request_key, keys.response_key);
    assert_ne!(keys.token_key, keys.replay_journal_key);
    assert_ne!(keys.request_key, keys.token_key);
    assert_eq!(keys.debug_text(), "PrivateRuntimeKeys { ..REDACTED.. }");
    assert_eq!(
        generation.debug_text(),
        "EphemeralKeyGeneration { ..REDACTED.. }"
    );
}

/// Two separately composed runtimes must name their key draws differently: a
/// wallet holding the old keys can learn that only from an epoch that moved.
#[test]
fn separately_composed_runtimes_do_not_share_a_key_epoch() {
    let compose_drawn = || {
        let generation = drawn();
        let mut deployment = private_deployment(shape(store_reads()));
        deployment.projection.key_epoch = generation.key_epoch;
        compose(&deployment, generation.keys)
            .ok()
            .unwrap()
            .session_bootstrap()
            .key_epoch
    };

    let first = compose_drawn();
    let second = compose_drawn();

    assert_ne!(
        first, second,
        "two key draws named by the same epoch leave a stale wallet no signal to re-bootstrap"
    );
    assert_ne!(first, 0);
    assert_ne!(second, 0);
}

#[test]
fn only_the_request_and_response_keys_are_releasable() {
    let keys = drawn().keys;
    let releasable = keys.releasable();

    assert_eq!(releasable.request_key, keys.request_key);
    assert_eq!(releasable.response_key, keys.response_key);
    assert_eq!(
        releasable.debug_text(),
        "ReleasableSessionKeys { ..REDACTED.. }"
    );
    assert_eq!(
        std::mem::size_of::<ReleasableSessionKeys>(),
        2 * PRIVATE_RUNTIME_KEY_BYTES,
        "a releasable set that grew past two keys is releasing something it should not"
    );
}

fn key_bytes(first: u8) -> PrivateRuntimeKeys {
    PrivateRuntimeKeys {
        request_key: [first; 32],
        response_key: [first + 1; 32],
        token_key: [first + 2; 32],
        replay_journal_key: [first + 3; 32],
    }
}

#[test]
fn key_epochs_are_drawn_with_their_low_bit_set() {
    let even = EphemeralKeyGeneration::from_draws(key_bytes(1), [0, 0, 0, 0, 0, 0, 1, 2]);
    assert_eq!(even.key_epoch, 259);
    let odd = EphemeralKeyGeneration::from_draws(key_bytes(1), [0, 0, 0, 0, 0, 0, 1, 3]);
    assert_eq!(odd.key_epoch, 259);
    let zero = EphemeralKeyGeneration::from_draws(key_bytes(1), [0; 8]);
    assert_eq!(zero.key_epoch, 1);
    assert_eq!(zero.keys.token_key, [3; 32]);
}

#[test]
fn wiped_keys_are_zero() {
    let mut keys = key_bytes(1);
    keys.wipe();
    assert_eq!(keys.request_key, [0; 32]);
    assert_eq!(keys.response_key, [0; 32]);
    assert_eq!(keys.token_key, [0; 32]);
    assert_eq!(keys.replay_journal_key, [0; 32]);

    let mut material = key_bytes(0x11).material();
    assert_eq!(material.request_key, [0x11; 32]);
    assert_eq!(material.replay_journal_key, [0x14; 32]);
    material.wipe();
    assert_eq!(material.request_key, [0; 32]);
    assert_eq!(material.response_key, [0; 32]);
    assert_eq!(material.token_key, [0; 32]);
    assert_eq!(material.replay_journal_key, [0; 32]);
}

#[test]
fn each_key_reaches_one_protector_only() {
    let runtime = compose(&private_deployment(shape(store_reads())), key_bytes(1))
        .ok()
        .unwrap();
    let security = &runtime.inner.runtime.security;
    assert_eq!(security.envelope_protector.request_key, [1; 32]);
    assert_eq!(security.envelope_protector.response_key, [2; 32]);
    assert_eq!(security.token_protector.0, [3; 32]);
    assert_eq!(security.replay_guard.protector.key.0, [4; 32]);
    assert_eq!(security.replay_guard.protector.domain, b"journal-record");
    let codec = &runtime.inner.runtime.codec;
    assert_eq!(codec.session_binding, security.session_binding());
    assert_ne!(codec.session_binding, [0; 32]);
    assert_eq!(&codec.profile_id, compiled_profile().unwrap().profile_id());
    assert_eq!(security.replay_namespace().0, security.session_binding());
    assert_eq!(runtime.inner.controller.projection_epoch, 11);
    assert!(runtime.inner.controller.network == PrivateNetwork::Regtest);
}

#[test]
fn composition_refuses_each_invalid_part() {
    let valid = private_deployment(shape(store_reads()));
    let refused = |deployment: &PrivateRuntimeDeployment, profile, root| {
        compose_over(
            deployment,
            key_bytes(1),
            profile,
            EmptyDirectory { root },
        )
        .is_err()
    };
    assert!(!refused(&valid, compiled_profile(), PathKind::Missing));
    assert!(refused(&valid, Err(ProfileMismatch), PathKind::Missing));
    assert!(refused(&valid, compiled_profile(), PathKind::Other));

    let mut no_service = valid.clone();
    no_service.service_namespace_id = [0; 16];
    assert!(refused(&no_service, compiled_profile(), PathKind::Missing));
    let mut no_generation = valid.clone();
    no_generation.owner_generation = 0;
    assert!(refused(&no_generation, compiled_profile(), PathKind::Missing));
    let mut no_epoch = valid.clone();
    no_epoch.projection.key_epoch = 0;
    assert!(refused(&no_epoch, compiled_profile(), PathKind::Missing));
    let mut no_schema = valid.clone();
    no_schema.projection.schema_version = 0;
    assert!(refused(&no_schema, compiled_profile(), PathKind::Missing));
    let mut no_projection = valid.clone();
    no_projection.projection.projection_epoch = 0;
    assert!(refused(&no_projection, compiled_profile(), PathKind::Missing));

    let mut unidentified = compiled_profile().unwrap();
    unidentified.profile_id = [0; PRIVATE_PROFILE_ID_BYTES];
    assert!(refused(&valid, Ok(unidentified), PathKind::Missing));
    let mut other_width = compiled_profile().unwrap();
    other_width.envelope_bytes += 1;
    assert!(refused(&valid, Ok(other_width), PathKind::Missing));
    let mut other_slots = compiled_profile().unwrap();
    other_slots.recent_snapshot_slots += 1;
    assert!(refused(&valid, Ok(other_slots), PathKind::Missing));
}

fn keys() -> RuntimeKeyMaterial {
    RuntimeKeyMaterial {
        request_key: [0x11; 32],
        response_key: [0x22; 32],
        token_key: [0x33; 32],
        replay_journal_key: [0x44; 32],
    }
}

fn deployment() -> RuntimeDeployment {
    RuntimeDeployment {
        service_namespace_id: [0x55; 16],
        owner_generation: 1,
        key_epoch: 1,
        replay_journal_root: "replay".to_string(),
    }
}

fn compiled_shape() -> CompiledQueryShape<QUERY_SLOTS, ENVELOPE_BYTES> {
    CompiledQueryShape::new(compiled_profile().unwrap()).unwrap()
}

#[test]
fn a_lease_composes_over_the_mainnet_profile_and_a_fresh_journal() {
    let lease = security_lease(
        &deployment(),
        compiled_shape(),
        fresh_directory(),
        Vec::new(),
        &RememberingSuite,
        keys(),
        &mut InstanceSource::new(),
    )
    .ok()
    .unwrap();

    assert_eq!(lease.key_epoch(), 1);
    assert_eq!(
        lease.profile_id(),
        compiled_profile().unwrap().profile_id()
    );
    assert_ne!(lease.security_epoch_tag.stable_binding, [0; 32]);
    assert_ne!(lease.session_binding(), [0; 32]);
    assert_ne!(
        lease.security_epoch_tag.stable_binding,
        lease.session_binding()
    );
}

/// Two leases over the same journal directory must not share a session
/// binding: a restart cannot resume its predecessor's identity.
#[test]
fn each_lease_mints_a_distinct_session_binding() {
    let mut instances = InstanceSource::new();
    let mut lease = || {
        security_lease(
            &deployment(),
            compiled_shape(),
            fresh_directory(),
            Vec::new(),
            &RememberingSuite,
            keys(),
            &mut instances,
        )
        .ok()
        .unwrap()
    };

    let first = lease();
    let first_session = first.session_binding();
    let first_epoch = first.security_epoch_tag.instance;
    let first_journal = first.replay_guard.instance_identity;
    drop(first);
    let second = lease();

    assert_ne!(first_session, second.session_binding());
    assert_eq!((first_journal, first_epoch), (0, 1));
    assert_eq!(second.replay_guard.instance_identity, 2);
    assert_eq!(second.security_epoch_tag.instance, 3);
}

/// A journal and a security epoch that share a source are numbered in order, and no two
/// of them alike.
#[test]
fn one_source_never_numbers_two_instances_alike() {
    let mut source = InstanceSource::new();
    let mut other = InstanceSource::new();
    let numbers: Vec<u64> = (0..4)
        .map(|_| source.next_instance().unwrap().into_number())
        .collect();
    assert_eq!(numbers, vec![0, 1, 2, 3]);
    assert_eq!(other.next_instance().unwrap().into_number(), 0);
}

/// The journal's record protection binds the deployment, so a directory carried
/// to a different owner generation cannot be reopened under it.
#[test]
fn the_protection_context_separates_owner_generations() {
    let profile = compiled_profile().unwrap();
    let first = deployment();
    let mut second = deployment();
    second.owner_generation = 2;

    assert!(
        protection_context(&first, profile.profile_id())
            != protection_context(&second, profile.profile_id())
    );
}

#[test]
fn protection_contexts_bind_everything_but_the_journal_path() {
    let base = deployment();
    let context = protection_context(&base, &[1; 16]);
    let mut moved = deployment();
    moved.replay_journal_root = "elsewhere".to_string();
    assert!(protection_context(&moved, &[1; 16]) == context);
    assert!(protection_context(&base, &[2; 16]) != context);
    let mut other_service = deployment();
    other_service.service_namespace_id[0] ^= 1;
    assert!(protection_context(&other_service, &[1; 16]) != context);
    let mut other_epoch = deployment();
    other_epoch.key_epoch = 2;
    assert!(protection_context(&other_epoch, &[1; 16]) != context);
}

#[test]
fn a_lease_is_refused_over_an_unsafe_journal() {
    let refused = security_lease(
        &deployment(),
        compiled_shape(),
        EmptyDirectory {
            root: PathKind::RegularFile,
        },
        Vec::new(),
        &RememberingSuite,
        keys(),
        &mut InstanceSource::new(),
    );
    assert!(matches!(refused, Err(UniformExternalFailure)));
}

/// Gives the number of each draw in every byte of it, and fails at one draw.
struct NumberedEntropy {
    drawn: u8,
    fails_at: u8,
}

impl RoundEntropy for NumberedEntropy {
    fn fill(&mut self, bytes: &mut [u8]) -> Result<(), RoundMaterialUnavailable> {
        self.drawn += 1;
        if self.drawn == self.fails_at {
            return Err(RoundMaterialUnavailable);
        }
        bytes.fill(self.drawn);
        Ok(())
    }
}

#[test]
fn a_generation_holds_the_draws_in_their_order() {
    let mut entropy = NumberedEntropy {
        drawn: 3,
        fails_at: 0,
    };
    let generation = EphemeralKeyGeneration::draw_from(&mut entropy).ok().unwrap();

    assert_eq!(generation.keys.request_key, [4; 32]);
    assert_eq!(generation.keys.response_key, [5; 32]);
    assert_eq!(generation.keys.token_key, [6; 32]);
    assert_eq!(generation.keys.replay_journal_key, [7; 32]);
    assert_eq!(generation.key_epoch, 0x0808_0808_0808_0809);
    assert_eq!(entropy.drawn, 8);
}

#[test]
fn the_first_failing_draw_ends_a_generation() {
    for fails_at in 1..=5 {
        let mut entropy = NumberedEntropy { drawn: 0, fails_at };

        assert!(EphemeralKeyGeneration::draw_from(&mut entropy).is_err());
        assert_eq!(entropy.drawn, fails_at);
    }
}
