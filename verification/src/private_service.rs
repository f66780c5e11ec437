//! Composition seam of one serving private-query runtime.
//!
//! A deployment supplies its identity, its projection's dimensions and its keys,
//! builds one finalized projection from canonical blocks, and drives the runtime
//! that serves it. Keys and the epoch that names them are drawn together, so
//! that they cannot drift apart across a restart.

use crate::bytes::append;
use crate::bytes::append_u32;
use crate::bytes::append_u64;
use crate::bytes::read_u64;
use crate::composition::RuntimeDeployment;
use crate::composition::RuntimeKeyMaterial;
use crate::digest::blake2s256_digest;
use crate::failure::PrivateQueryUnavailable;
use crate::profile::PrivacyProfile;
use crate::profile::ProfileMismatch;
use crate::records::PrivateNetwork;
use crate::secret::clear_key;
use crate::secret::PRIVATE_RUNTIME_KEY_BYTES;
use crate::security_owner::OsEntropy;
use crate::security_owner::RoundEntropy;
use crate::security_owner::RoundMaterialUnavailable;
use vstd::prelude::*;

verus! {

/// Probe counts fixed by the compiled layout; not for a deployment to choose.
pub const DIRECTORY_PROBES: usize = 4;

pub const EVENT_PROBES: usize = 4;

/// One in-flight command: the compiled profile admits a single worker.
pub const QUEUE_CAPACITY: usize = 1;

/// Exact length of the authoritative privacy-profile identifier.
pub const PRIVATE_PROFILE_ID_BYTES: usize = 16;

/// `zaino-oram/private-service-layout-seed/v1`, and a zero byte.
pub const LAYOUT_SEED_DOMAIN: [u8; 42] = [
    0x7a, 0x61, 0x69, 0x6e, 0x6f, 0x2d, 0x6f, 0x72, 0x61, 0x6d, 0x2f, 0x70,
    0x72, 0x69, 0x76, 0x61, 0x74, 0x65, 0x2d, 0x73, 0x65, 0x72, 0x76, 0x69,
    0x63, 0x65, 0x2d, 0x6c, 0x61, 0x79, 0x6f, 0x75, 0x74, 0x2d, 0x73, 0x65,
    0x65, 0x64, 0x2f, 0x76, 0x31, 0x00,
];

/// A power of two.
pub open spec fn is_power_of_two(value: nat) -> bool
    decreases value,
{
    value == 1 || (value > 1 && value % 2 == 0 && is_power_of_two(value / 2))
}

/// Whether a number is a power of two.
pub fn power_of_two(value: u64) -> (power: bool)
    ensures
        power == is_power_of_two(value as nat),
{
    if value == 0 {
        return false;
    }
    let mut rest: u64 = value;
    while rest % 2 == 0
        invariant
            rest > 0,
            is_power_of_two(rest as nat) == is_power_of_two(value as nat),
        decreases rest,
    {
        rest = rest / 2;
    }
    rest == 1
}

/// Fixed dimensions of one finalized projection generation.
///
/// Every field is authoritative, and is bound into the seed that the projection's tables
/// are laid out from: two shapes that differ in any of them are different projections.
#[derive(Debug, Clone, Copy, PartialEq, Eq, Structural)]
pub struct PrivateProjectionShape {
    /// Chain this projection is built from.
    pub network: PrivateNetwork,
    /// Nonzero record-schema version bound into the layout and identity.
    pub schema_version: u32,
    /// Nonzero key epoch separating this generation's material from a prior one.
    pub key_epoch: u64,
    /// Nonzero projection lifecycle epoch, also used as the layout generation.
    pub projection_epoch: u64,
    /// Total transparent outputs the projection may ever observe.
    pub max_seen_outputs: usize,
    /// Transparent outputs that may be live at once.
    pub max_live_outputs: usize,
    /// Standard addresses the directory table admits; below its capacity.
    pub directory_admission: usize,
    /// Address events the event table admits in total; below its capacity.
    pub event_admission: usize,
    /// Events retained per address; at most all events that are admitted.
    pub max_events_per_address: usize,
    /// Physical directory-table slots; a power of two.
    pub directory_capacity: u64,
    /// Physical event-table slots; a power of two.
    pub event_capacity: u64,
}

/// Numbers of records that a projection may hold.
#[derive(Debug, Clone, Copy, PartialEq, Eq, Structural)]
pub struct ProjectionCapacities {
    pub max_seen_outputs: usize,
    pub max_live_outputs: usize,
    pub directory_admission: usize,
    pub event_admission: usize,
    pub max_events_per_address: usize,
}

/// Identity and capacities of a projection.
#[derive(Debug, Clone, Copy, PartialEq, Eq, Structural)]
pub struct ProjectionConfig {
    pub network: PrivateNetwork,
    pub schema_version: u32,
    pub key_epoch: u64,
    pub projection_epoch: u64,
    pub capacities: ProjectionCapacities,
}

/// Size of one probed table, and how many entries it admits.
#[derive(Debug, Clone, Copy, PartialEq, Eq, Structural)]
pub struct TableConfiguration {
    pub capacity: u64,
    pub admission: u64,
    pub probes: usize,
}

/// Layout of a projection's tables.
#[derive(Debug, Clone, Copy, PartialEq, Eq)]
pub struct FixedProbeLayout {
    pub network: PrivateNetwork,
    pub schema_version: u32,
    pub key_epoch: u64,
    /// The projection epoch.
    pub generation: u64,
    pub seed: [u8; 32],
    pub directory: TableConfiguration,
    pub events: TableConfiguration,
    pub max_events_per_address: u64,
}

impl PrivateProjectionShape {
    /// Every authoritative dimension that the layout is seeded from.
    pub open spec fn seed_preimage(self) -> Seq<u8> {
        LAYOUT_SEED_DOMAIN@ + seq![self.network.spec_tag()] + crate::bytes::u32_be(
            self.schema_version,
        ) + crate::bytes::u64_be(self.key_epoch) + crate::bytes::u64_be(self.projection_epoch)
            + crate::bytes::u64_be(self.directory_capacity) + crate::bytes::u64_be(
            self.event_capacity,
        ) + crate::bytes::u64_be(self.max_seen_outputs as u64) + crate::bytes::u64_be(
            self.max_live_outputs as u64,
        ) + crate::bytes::u64_be(self.directory_admission as u64) + crate::bytes::u64_be(
            self.event_admission as u64,
        ) + crate::bytes::u64_be(self.max_events_per_address as u64)
    }

    /// Every epoch and the schema are named.
    pub open spec fn is_identified(self) -> bool {
        self.schema_version != 0 && self.key_epoch != 0 && self.projection_epoch != 0
    }

    /// Both tables can be laid out, and hold what they admit.
    pub open spec fn fits_tables(self) -> bool {
        &&& is_power_of_two(self.directory_capacity as nat)
        &&& self.directory_admission < self.directory_capacity
        &&& is_power_of_two(self.event_capacity as nat)
        &&& self.event_admission < self.event_capacity
        &&& self.max_events_per_address <= self.event_admission
    }

    /// The projection's identity and capacities.
    pub open spec fn config(self) -> ProjectionConfig {
        ProjectionConfig {
            network: self.network,
            schema_version: self.schema_version,
            key_epoch: self.key_epoch,
            projection_epoch: self.projection_epoch,
            capacities: ProjectionCapacities {
                max_seen_outputs: self.max_seen_outputs,
                max_live_outputs: self.max_live_outputs,
                directory_admission: self.directory_admission,
                event_admission: self.event_admission,
                max_events_per_address: self.max_events_per_address,
            },
        }
    }

    /// The layout is this shape's.
    pub open spec fn lays_out(self, layout: FixedProbeLayout) -> bool {
        &&& layout.network == self.network
        &&& layout.schema_version == self.schema_version
        &&& layout.key_epoch == self.key_epoch
        &&& layout.generation == self.projection_epoch
        &&& layout.seed@ == crate::digest::blake2s256(self.seed_preimage())
        &&& layout.directory == (TableConfiguration {
            capacity: self.directory_capacity,
            admission: self.directory_admission as u64,
            probes: DIRECTORY_PROBES,
        })
        &&& layout.events == (TableConfiguration {
            capacity: self.event_capacity,
            admission: self.event_admission as u64,
            probes: EVENT_PROBES,
        })
        &&& layout.max_events_per_address == self.max_events_per_address
    }

    /// Derives the layout probe seed from every authoritative dimension.
    ///
    /// One shape always lays out identically: a rebuild of the same generation
    /// probes the same slots.
    pub fn layout_seed(&self) -> (seed: [u8; 32])
        ensures
            seed@ == crate::digest::blake2s256(self.seed_preimage()),
    {
        let mut preimage: Vec<u8> = Vec::new();
        append(&mut preimage, LAYOUT_SEED_DOMAIN.as_slice());
        preimage.push(self.network.tag());
        append_u32(&mut preimage, self.schema_version);
        append_u64(&mut preimage, self.key_epoch);
        append_u64(&mut preimage, self.projection_epoch);
        append_u64(&mut preimage, self.directory_capacity);
        append_u64(&mut preimage, self.event_capacity);
        append_u64(&mut preimage, self.max_seen_outputs as u64);
        append_u64(&mut preimage, self.max_live_outputs as u64);
        append_u64(&mut preimage, self.directory_admission as u64);
        append_u64(&mut preimage, self.event_admission as u64);
        append_u64(&mut preimage, self.max_events_per_address as u64);
        assert(preimage@ =~= self.seed_preimage());
        blake2s256_digest(preimage.as_slice())
    }

    /// Identity and capacities of a projection whose every epoch is named.
    pub fn projection_config(&self) -> (result: Result<ProjectionConfig, PrivateQueryUnavailable>)
        ensures
            result == if self.is_identified() {
                Ok(self.config())
            } else {
                Err(PrivateQueryUnavailable)
            },
    {
        if self.schema_version == 0 || self.key_epoch == 0 || self.projection_epoch == 0 {
            return Err(PrivateQueryUnavailable);
        }
        let capacities = ProjectionCapacities {
            max_seen_outputs: self.max_seen_outputs,
            max_live_outputs: self.max_live_outputs,
            directory_admission: self.directory_admission,
            event_admission: self.event_admission,
            max_events_per_address: self.max_events_per_address,
        };
        Ok(
            ProjectionConfig {
                network: self.network,
                schema_version: self.schema_version,
                key_epoch: self.key_epoch,
                projection_epoch: self.projection_epoch,
                capacities,
            },
        )
    }

    /// Layout of a projection whose tables hold what they admit.
    pub fn layout(&self) -> (result: Result<FixedProbeLayout, PrivateQueryUnavailable>)
        ensures
            match result {
                Ok(layout) => self.is_identified() && self.fits_tables() && self.lays_out(layout),
                Err(_) => !self.is_identified() || !self.fits_tables(),
            },
            result matches Ok(layout) ==> {
                &&& layout.directory.capacity == self.directory_capacity
                &&& layout.directory.admission == self.directory_admission
                &&& layout.directory.admission < layout.directory.capacity
                &&& vstd::arithmetic::power2::is_pow2(layout.directory.capacity as int)
                &&& layout.events.capacity == self.event_capacity
                &&& layout.events.admission == self.event_admission
                &&& layout.events.admission < layout.events.capacity
                &&& vstd::arithmetic::power2::is_pow2(layout.events.capacity as int)
                &&& layout.max_events_per_address == self.max_events_per_address
                &&& layout.max_events_per_address <= layout.events.admission
            },
    {
        if self.schema_version == 0 || self.key_epoch == 0 || self.projection_epoch == 0 {
            return Err(PrivateQueryUnavailable);
        }
        let directory_admission: u64 = self.directory_admission as u64;
        let event_admission: u64 = self.event_admission as u64;
        if !power_of_two(self.directory_capacity) || directory_admission >= self.directory_capacity {
            return Err(PrivateQueryUnavailable);
        }
        if !power_of_two(self.event_capacity) || event_admission >= self.event_capacity {
            return Err(PrivateQueryUnavailable);
        }
        if self.max_events_per_address > self.event_admission {
            return Err(PrivateQueryUnavailable);
        }
        proof {
            lemma_power_of_two_is_a_power(self.directory_capacity as nat);
            lemma_power_of_two_is_a_power(self.event_capacity as nat);
        }
        Ok(
            FixedProbeLayout {
                network: self.network,
                schema_version: self.schema_version,
                key_epoch: self.key_epoch,
                generation: self.projection_epoch,
                seed: self.layout_seed(),
                directory: TableConfiguration {
                    capacity: self.directory_capacity,
                    admission: directory_admission,
                    probes: DIRECTORY_PROBES,
                },
                events: TableConfiguration {
                    capacity: self.event_capacity,
                    admission: event_admission,
                    probes: EVENT_PROBES,
                },
                max_events_per_address: self.max_events_per_address as u64,
            },
        )
    }
}

proof fn lemma_power_of_two_is_a_power(value: nat)
    ensures
        is_power_of_two(value) == vstd::arithmetic::power2::is_pow2(value as int),
    decreases value,
{
    reveal(vstd::arithmetic::power2::is_pow2);
    if value > 1 {
        lemma_power_of_two_is_a_power(value / 2);
    }
}

/// A number passes for a power of two exactly where it is two to some exponent.
pub proof fn powers_of_two_are_powers(value: nat)
    ensures
        is_power_of_two(value) <==> exists|exponent: nat|
            #[trigger] vstd::arithmetic::power::pow(2, exponent) == value,
{
    lemma_power_of_two_is_a_power(value);
    vstd::arithmetic::power2::is_pow2_equiv(value as int);
}

/// A shape can be laid out exactly where it names its schema and both epochs, each table's
/// slots are a power of two above what that table admits, and an address keeps no more
/// events than are admitted.
pub proof fn shape_is_laid_out_where_its_tables_fit(shape: PrivateProjectionShape)
    ensures
        shape.is_identified() <==> shape.schema_version > 0 && shape.key_epoch > 0
            && shape.projection_epoch > 0,
        shape.fits_tables() <==> {
            &&& exists|exponent: nat|
                #[trigger] vstd::arithmetic::power::pow(2, exponent) == shape.directory_capacity
            &&& exists|exponent: nat|
                #[trigger] vstd::arithmetic::power::pow(2, exponent) == shape.event_capacity
            &&& shape.directory_capacity > shape.directory_admission
            &&& shape.event_capacity > shape.event_admission
            &&& shape.event_admission >= shape.max_events_per_address
        },
{
    powers_of_two_are_powers(shape.directory_capacity as nat);
    powers_of_two_are_powers(shape.event_capacity as nat);
}

/// A shape's layout has the directory's slots and admission in the directory and the events'
/// in the event table, is of the shape's network, schema and epochs, and so holds in each
/// table what that table admits.
pub proof fn layout_holds_what_it_admits(shape: PrivateProjectionShape, layout: FixedProbeLayout)
    requires
        shape.fits_tables(),
        shape.lays_out(layout),
    ensures
        layout.directory.admission < layout.directory.capacity,
        layout.events.admission < layout.events.capacity,
        exists|exponent: nat|
            #[trigger] vstd::arithmetic::power::pow(2, exponent) == layout.directory.capacity,
        exists|exponent: nat|
            #[trigger] vstd::arithmetic::power::pow(2, exponent) == layout.events.capacity,
        layout.max_events_per_address <= layout.events.admission,
        layout.directory.capacity == shape.directory_capacity,
        layout.directory.admission == shape.directory_admission,
        layout.events.capacity == shape.event_capacity,
        layout.events.admission == shape.event_admission,
        layout.directory.probes == 4,
        layout.events.probes == 4,
        layout.seed@ == crate::digest::blake2s256(shape.seed_preimage()),
        layout.max_events_per_address == shape.max_events_per_address,
        layout.network == shape.network,
        layout.schema_version == shape.schema_version,
        layout.key_epoch == shape.key_epoch,
        layout.generation == shape.projection_epoch,
{
    powers_of_two_are_powers(shape.directory_capacity as nat);
    powers_of_two_are_powers(shape.event_capacity as nat);
}

/// A worker is opened for its shape: under the shape's identity, with each of its numbers
/// in its place, and over a layout whose tables are the shape's.
pub proof fn worker_is_opened_for_its_shape<O: OfflineProjectionOwner>(
    shape: PrivateProjectionShape,
    layout: FixedProbeLayout,
    reply: Result<O, ProjectionUnavailable>,
    result: Result<FinalizedProjectionBuilder<O>, PrivateQueryUnavailable>,
)
    requires
        start_ends(shape, layout, reply, result),
    ensures
        exists|config: ProjectionConfig| #[trigger]
            O::may_open(config, layout, 1, reply) && config.network == shape.network
                && config.schema_version == shape.schema_version && config.key_epoch
                == shape.key_epoch && config.projection_epoch == shape.projection_epoch
                && config.capacities.max_seen_outputs == shape.max_seen_outputs
                && config.capacities.max_live_outputs == shape.max_live_outputs
                && config.capacities.directory_admission == shape.directory_admission
                && config.capacities.event_admission == shape.event_admission
                && config.capacities.max_events_per_address == shape.max_events_per_address,
        layout.directory.capacity == shape.directory_capacity,
        layout.directory.admission == shape.directory_admission,
        layout.events.capacity == shape.event_capacity,
        layout.events.admission == shape.event_admission,
        layout.directory.probes == 4,
        layout.events.probes == 4,
        layout.max_events_per_address == shape.max_events_per_address,
        layout.network == shape.network,
        layout.schema_version == shape.schema_version,
        layout.key_epoch == shape.key_epoch,
        layout.generation == shape.projection_epoch,
        result is Ok <==> reply is Ok,
        result matches Ok(builder) ==> builder.owner == Some(reply->Ok_0) && builder.latest is None,
{
    assert(O::may_open(shape.config(), layout, QUEUE_CAPACITY, reply));
}

/// The layout's seed is taken over a string that names every dimension: shapes with the
/// same string are the same shape.
pub proof fn layout_seed_names_every_dimension(
    left: PrivateProjectionShape,
    right: PrivateProjectionShape,
)
    requires
        left.seed_preimage() == right.seed_preimage(),
    ensures
        left == right,
{
    let left0 = LAYOUT_SEED_DOMAIN@ + seq![left.network.spec_tag()] + crate::bytes::u32_be(
        left.schema_version,
    );
    let right0 = LAYOUT_SEED_DOMAIN@ + seq![right.network.spec_tag()] + crate::bytes::u32_be(
        right.schema_version,
    );
    let left1 = left0 + crate::bytes::u64_be(left.key_epoch);
    let right1 = right0 + crate::bytes::u64_be(right.key_epoch);
    let left2 = left1 + crate::bytes::u64_be(left.projection_epoch);
    let right2 = right1 + crate::bytes::u64_be(right.projection_epoch);
    let left3 = left2 + crate::bytes::u64_be(left.directory_capacity);
    let right3 = right2 + crate::bytes::u64_be(right.directory_capacity);
    let left4 = left3 + crate::bytes::u64_be(left.event_capacity);
    let right4 = right3 + crate::bytes::u64_be(right.event_capacity);
    let left5 = left4 + crate::bytes::u64_be(left.max_seen_outputs as u64);
    let right5 = right4 + crate::bytes::u64_be(right.max_seen_outputs as u64);
    let left6 = left5 + crate::bytes::u64_be(left.max_live_outputs as u64);
    let right6 = right5 + crate::bytes::u64_be(right.max_live_outputs as u64);
    let left7 = left6 + crate::bytes::u64_be(left.directory_admission as u64);
    let right7 = right6 + crate::bytes::u64_be(right.directory_admission as u64);
    let left8 = left7 + crate::bytes::u64_be(left.event_admission as u64);
    let right8 = right7 + crate::bytes::u64_be(right.event_admission as u64);
    crate::bytes::lemma_u64_suffix(left8, left.max_events_per_address as u64, right8, right.max_events_per_address as u64);
    crate::bytes::lemma_u64_suffix(left7, left.event_admission as u64, right7, right.event_admission as u64);
    crate::bytes::lemma_u64_suffix(left6, left.directory_admission as u64, right6, right.directory_admission as u64);
    crate::bytes::lemma_u64_suffix(left5, left.max_live_outputs as u64, right5, right.max_live_outputs as u64);
    crate::bytes::lemma_u64_suffix(left4, left.max_seen_outputs as u64, right4, right.max_seen_outputs as u64);
    crate::bytes::lemma_u64_suffix(left3, left.event_capacity, right3, right.event_capacity);
    crate::bytes::lemma_u64_suffix(left2, left.directory_capacity, right2, right.directory_capacity);
    crate::bytes::lemma_u64_suffix(left1, left.projection_epoch, right1, right.projection_epoch);
    crate::bytes::lemma_u64_suffix(left0, left.key_epoch, right0, right.key_epoch);
    let start = LAYOUT_SEED_DOMAIN@.len() as int;
    assert(left0[start] == left.network.spec_tag());
    assert(right0[start] == right.network.spec_tag());
    assert(left0.subrange(start + 1, start + 5) =~= crate::bytes::u32_be(left.schema_version));
    assert(right0.subrange(start + 1, start + 5) =~= crate::bytes::u32_be(right.schema_version));
    crate::bytes::lemma_u32_injective(left.schema_version, right.schema_version);
}

/// Logical store reads that one query of the compiled profile performs.
///
/// A projection whose per-address width is below this cannot answer a single
/// round.
pub fn private_mainnet_store_reads(profile: &Result<PrivacyProfile, ProfileMismatch>) -> (result:
    Result<usize, PrivateQueryUnavailable>)
    ensures
        result == match *profile {
            Ok(profile) => Ok(profile.store_reads),
            Err(_) => Err(PrivateQueryUnavailable),
        },
{
    match profile {
        Ok(profile) => Ok(profile.store_reads()),
        Err(_) => Err(PrivateQueryUnavailable),
    }
}

/// Width of the compiled profile's fixed release schedule, in milliseconds.
///
/// A response is written when this bucket has elapsed since its round was
/// admitted, whatever the round cost.
pub fn private_mainnet_timeout_bucket_millis(
    profile: &Result<PrivacyProfile, ProfileMismatch>,
) -> (result: Result<u64, PrivateQueryUnavailable>)
    ensures
        result == match *profile {
            Ok(profile) => Ok(profile.timeout_bucket_millis),
            Err(_) => Err(PrivateQueryUnavailable),
        },
{
    match profile {
        Ok(profile) => Ok(profile.timeout_bucket_millis()),
        Err(_) => Err(PrivateQueryUnavailable),
    }
}

/// Deployment identity, durable location, and the projection they scope.
///
/// The runtime and its serving generation agree on network, schema version, key
/// epoch and projection epoch: there is one shape for both, and a refresh pins no
/// serving epoch that differs from it in one of the four.
#[derive(Debug, Clone, PartialEq, Eq)]
pub struct PrivateRuntimeDeployment {
    /// Namespace separating this service's replay journal from any other.
    pub service_namespace_id: [u8; 16],
    /// Nonzero generation separating this owner's journal from a predecessor's.
    pub owner_generation: u64,
    /// Directory holding the crash-durable replay journal.
    pub replay_journal_root: String,
    /// Shape of the finalized projection this runtime will serve.
    pub projection: PrivateProjectionShape,
}

impl PrivateRuntimeDeployment {
    /// The part of the deployment that a runtime's security is composed from.
    pub open spec fn deploys(self, deployment: RuntimeDeployment) -> bool {
        &&& deployment.service_namespace_id == self.service_namespace_id
        &&& deployment.owner_generation == self.owner_generation
        &&& deployment.key_epoch == self.projection.key_epoch
        &&& deployment.replay_journal_root@ == self.replay_journal_root@
    }

    pub fn runtime_deployment(&self) -> (deployment: RuntimeDeployment)
        ensures
            self.deploys(deployment),
    {
        RuntimeDeployment {
            service_namespace_id: self.service_namespace_id,
            owner_generation: self.owner_generation,
            key_epoch: self.projection.key_epoch,
            replay_journal_root: self.replay_journal_root.clone(),
        }
    }
}

/// The four long-lived keys one runtime owns, supplied already derived.
pub struct PrivateRuntimeKeys {
    /// Protects request envelopes.
    pub request_key: [u8; PRIVATE_RUNTIME_KEY_BYTES],
    /// Protects response envelopes.
    pub response_key: [u8; PRIVATE_RUNTIME_KEY_BYTES],
    /// Protects continuation tokens.
    pub token_key: [u8; PRIVATE_RUNTIME_KEY_BYTES],
    /// Protects replay-journal records.
    pub replay_journal_key: [u8; PRIVATE_RUNTIME_KEY_BYTES],
}

impl PrivateRuntimeKeys {
    /// The same four keys, each in its place.
    pub open spec fn makes(self, material: RuntimeKeyMaterial) -> bool {
        &&& material.request_key == self.request_key
        &&& material.response_key == self.response_key
        &&& material.token_key == self.token_key
        &&& material.replay_journal_key == self.replay_journal_key
    }

    /// Moves the keys into the composition and clears them here.
    pub fn material(self) -> (material: RuntimeKeyMaterial)
        ensures
            self.makes(material),
    {
        let mut keys = self;
        let material = RuntimeKeyMaterial {
            request_key: keys.request_key,
            response_key: keys.response_key,
            token_key: keys.token_key,
            replay_journal_key: keys.replay_journal_key,
        };
        keys.wipe();
        material
    }

    /// Clears all four keys.
    pub fn wipe(&mut self)
        ensures
            crate::bytes::is_zero(final(self).request_key@),
            crate::bytes::is_zero(final(self).response_key@),
            crate::bytes::is_zero(final(self).token_key@),
            crate::bytes::is_zero(final(self).replay_journal_key@),
    {
        clear_key(&mut self.request_key);
        clear_key(&mut self.response_key);
        clear_key(&mut self.token_key);
        clear_key(&mut self.replay_journal_key);
    }

    /// Copies out only the keys a wallet is allowed to hold.
    pub fn releasable(&self) -> (keys: ReleasableSessionKeys)
        ensures
            keys.request_key == self.request_key,
            keys.response_key == self.response_key,
    {
        ReleasableSessionKeys { request_key: self.request_key, response_key: self.response_key }
    }

    /// Redacted rendering for logs.
    pub fn debug_text(&self) -> (text: &'static str)
        ensures
            text@ == "PrivateRuntimeKeys { ..REDACTED.. }"@,
    {
        "PrivateRuntimeKeys { ..REDACTED.. }"
    }
}

/// Each of the four keys goes to its own place and to no other, and the deployment's names
/// are those that the runtime is composed under.
pub proof fn keys_and_names_keep_their_places(
    keys: PrivateRuntimeKeys,
    material: RuntimeKeyMaterial,
    deployed: PrivateRuntimeDeployment,
    deployment: RuntimeDeployment,
)
    requires
        keys.makes(material),
        deployed.deploys(deployment),
    ensures
        material.request_key == keys.request_key,
        material.response_key == keys.response_key,
        material.token_key == keys.token_key,
        material.replay_journal_key == keys.replay_journal_key,
        deployment.service_namespace_id == deployed.service_namespace_id,
        deployment.owner_generation == deployed.owner_generation,
        deployment.key_epoch == deployed.projection.key_epoch,
        deployment.replay_journal_root@ == deployed.replay_journal_root@,
{
}

/// One draw of process-lifetime runtime keys, together with the epoch naming it.
///
/// The pair is drawn as a unit: the epoch is the only thing by which a wallet can
/// tell one draw from another.
pub struct EphemeralKeyGeneration {
    /// Nonzero epoch naming exactly this draw.
    pub key_epoch: u64,
    /// The four keys drawn under it.
    pub keys: PrivateRuntimeKeys,
}

/// What an entropy source gave for four keys and the epoch that names them, and what
/// each draw left of it.
pub struct KeyDraws<E> {
    pub request_key: Result<[u8; PRIVATE_RUNTIME_KEY_BYTES], PrivateQueryUnavailable>,
    pub after_request: E,
    pub response_key: Result<[u8; PRIVATE_RUNTIME_KEY_BYTES], PrivateQueryUnavailable>,
    pub after_response: E,
    pub token_key: Result<[u8; PRIVATE_RUNTIME_KEY_BYTES], PrivateQueryUnavailable>,
    pub after_token: E,
    pub replay_journal_key: Result<[u8; PRIVATE_RUNTIME_KEY_BYTES], PrivateQueryUnavailable>,
    pub after_journal: E,
    pub epoch: [u8; 8],
    pub epoch_reply: Result<(), RoundMaterialUnavailable>,
}

impl EphemeralKeyGeneration {
    /// Names four drawn keys by a drawn epoch, whose low bit is set so that it is
    /// never zero.
    pub fn from_draws(keys: PrivateRuntimeKeys, epoch: [u8; 8]) -> (generation: Self)
        ensures
            generation.keys == keys,
            generation.key_epoch == (crate::bytes::be_u64(epoch@) as u64) | 1,
            generation.key_epoch != 0,
    {
        let drawn: u64 = read_u64(epoch.as_slice(), 0);
        assert(epoch@.subrange(0, 8) =~= epoch@);
        assert(drawn | 1 != 0) by (bit_vector);
        EphemeralKeyGeneration { key_epoch: drawn | 1, keys }
    }

    /// How a draw of keys and an epoch ends, for every reply of the entropy source.
    ///
    /// The four keys are drawn in their order and the epoch last. The first draw that
    /// fails is the last one, and gives no keys at all.
    pub open spec fn is_drawn<E: RoundEntropy>(
        before: E,
        draws: KeyDraws<E>,
        after: E,
        result: Result<Self, PrivateQueryUnavailable>,
    ) -> bool {
        let refused = result == Err::<Self, _>(PrivateQueryUnavailable);
        &&& key_is_drawn(before, draws.after_request, draws.request_key)
        &&& if draws.request_key is Err {
            refused && after == draws.after_request
        } else {
            &&& key_is_drawn(draws.after_request, draws.after_response, draws.response_key)
            &&& if draws.response_key is Err {
                refused && after == draws.after_response
            } else {
                &&& key_is_drawn(draws.after_response, draws.after_token, draws.token_key)
                &&& if draws.token_key is Err {
                    refused && after == draws.after_token
                } else {
                    &&& key_is_drawn(
                        draws.after_token,
                        draws.after_journal,
                        draws.replay_journal_key,
                    )
                    &&& if draws.replay_journal_key is Err {
                        refused && after == draws.after_journal
                    } else {
                        &&& E::may_fill(draws.after_journal, after, draws.epoch@, draws.epoch_reply)
                        &&& if draws.epoch_reply is Err {
                            refused
                        } else {
                            result == Ok::<_, PrivateQueryUnavailable>(
                                (EphemeralKeyGeneration {
                                    key_epoch: (crate::bytes::be_u64(draws.epoch@) as u64) | 1,
                                    keys: PrivateRuntimeKeys {
                                        request_key: draws.request_key->Ok_0,
                                        response_key: draws.response_key->Ok_0,
                                        token_key: draws.token_key->Ok_0,
                                        replay_journal_key: draws.replay_journal_key->Ok_0,
                                    },
                                }),
                            )
                        }
                    }
                }
            }
        }
    }

    /// Draws four fresh keys from an entropy source, plus the epoch that names them.
    pub fn draw_from<E: RoundEntropy>(entropy: &mut E) -> (result: Result<
        Self,
        PrivateQueryUnavailable,
    >)
        ensures
            exists|draws: KeyDraws<E>| #[trigger]
                Self::is_drawn(*old(entropy), draws, *final(entropy), result),
            result matches Ok(generation) ==> generation.key_epoch != 0,
    {
        let ghost before = *entropy;
        let ghost mut draws: KeyDraws<E> = arbitrary();
        let drawn = draw_key(entropy);
        proof {
            draws = KeyDraws { request_key: drawn, after_request: *entropy, ..draws };
        }
        let request_key = match drawn {
            Ok(key) => key,
            Err(error) => {
                assert(Self::is_drawn(before, draws, *entropy, Err(error)));
                return Err(error);
            },
        };
        let drawn = draw_key(entropy);
        proof {
            draws = KeyDraws { response_key: drawn, after_response: *entropy, ..draws };
        }
        let response_key = match drawn {
            Ok(key) => key,
            Err(error) => {
                assert(Self::is_drawn(before, draws, *entropy, Err(error)));
                return Err(error);
            },
        };
        let drawn = draw_key(entropy);
        proof {
            draws = KeyDraws { token_key: drawn, after_token: *entropy, ..draws };
        }
        let token_key = match drawn {
            Ok(key) => key,
            Err(error) => {
                assert(Self::is_drawn(before, draws, *entropy, Err(error)));
                return Err(error);
            },
        };
        let drawn = draw_key(entropy);
        proof {
            draws = KeyDraws { replay_journal_key: drawn, after_journal: *entropy, ..draws };
        }
        let replay_journal_key = match drawn {
            Ok(key) => key,
            Err(error) => {
                assert(Self::is_drawn(before, draws, *entropy, Err(error)));
                return Err(error);
            },
        };
        let keys = PrivateRuntimeKeys { request_key, response_key, token_key, replay_journal_key };
        let mut epoch: [u8; 8] = [0u8; 8];
        let epoch_reply = entropy.fill(&mut epoch);
        proof {
            draws = KeyDraws { epoch, epoch_reply, ..draws };
        }
        match epoch_reply {
            Ok(()) => {},
            Err(_) => {
                assert(Self::is_drawn(before, draws, *entropy, Err(PrivateQueryUnavailable)));
                return Err(PrivateQueryUnavailable);
            },
        }
        let generation = EphemeralKeyGeneration::from_draws(keys, epoch);
        assert(Self::is_drawn(before, draws, *entropy, Ok(generation)));
        Ok(generation)
    }

    /// Draws four fresh keys from the operating-system generator, plus the epoch
    /// that names them.
    ///
    /// The keys die with the process: everything sealed under them becomes
    /// unreadable at restart. A failed draw gives no keys at all.
    pub fn draw() -> (result: Result<Self, PrivateQueryUnavailable>)
        ensures
            exists|draws: KeyDraws<OsEntropy>, after: OsEntropy| #[trigger]
                Self::is_drawn(OsEntropy, draws, after, result),
            result matches Ok(generation) ==> generation.key_epoch != 0,
    {
        let mut entropy = OsEntropy;
        EphemeralKeyGeneration::draw_from(&mut entropy)
    }

    /// Redacted rendering for logs.
    pub fn debug_text(&self) -> (text: &'static str)
        ensures
            text@ == "EphemeralKeyGeneration { ..REDACTED.. }"@,
    {
        "EphemeralKeyGeneration { ..REDACTED.. }"
    }
}

/// How a draw of one key ends: the key is what the source gave, unless it failed.
pub open spec fn key_is_drawn<E: RoundEntropy>(
    before: E,
    after: E,
    result: Result<[u8; PRIVATE_RUNTIME_KEY_BYTES], PrivateQueryUnavailable>,
) -> bool {
    exists|
        bytes: [u8; PRIVATE_RUNTIME_KEY_BYTES],
        reply: Result<(), RoundMaterialUnavailable>,
    | #[trigger]
        E::may_fill(before, after, bytes@, reply) && result == match reply {
            Ok(_) => Ok(bytes),
            Err(_) => Err(PrivateQueryUnavailable),
        }
}

proof fn lemma_drawn_key_was_filled<E: RoundEntropy>(
    before: E,
    after: E,
    key: [u8; PRIVATE_RUNTIME_KEY_BYTES],
)
    requires
        key_is_drawn(before, after, Ok(key)),
    ensures
        exists|reply: Result<(), RoundMaterialUnavailable>| #[trigger]
            E::may_fill(before, after, key@, reply) && reply is Ok,
{
    let (bytes, reply) = choose|
        bytes: [u8; PRIVATE_RUNTIME_KEY_BYTES],
        reply: Result<(), RoundMaterialUnavailable>,
    | #[trigger] E::may_fill(before, after, bytes@, reply) && reply is Ok && bytes == key;
    assert(E::may_fill(before, after, key@, reply));
}

/// Every key of a generation is what its own draw gave: the four draws and the epoch's
/// follow each other on one source, the epoch is odd, and above its lowest bit it is the
/// number that was drawn. A generation is given exactly where none of the five failed.
pub proof fn generation_is_five_draws_in_a_row<E: RoundEntropy>(
    before: E,
    draws: KeyDraws<E>,
    after: E,
    result: Result<EphemeralKeyGeneration, PrivateQueryUnavailable>,
)
    requires
        EphemeralKeyGeneration::is_drawn(before, draws, after, result),
    ensures
        result is Ok <==> draws.request_key is Ok && draws.response_key is Ok
            && draws.token_key is Ok && draws.replay_journal_key is Ok && draws.epoch_reply is Ok,
        result matches Ok(generation) ==> {
            &&& exists|reply: Result<(), RoundMaterialUnavailable>| #[trigger]
                E::may_fill(before, draws.after_request, generation.keys.request_key@, reply)
                    && reply is Ok
            &&& exists|reply: Result<(), RoundMaterialUnavailable>| #[trigger]
                E::may_fill(draws.after_request, draws.after_response, generation.keys.response_key@, reply)
                    && reply is Ok
            &&& exists|reply: Result<(), RoundMaterialUnavailable>| #[trigger]
                E::may_fill(draws.after_response, draws.after_token, generation.keys.token_key@, reply)
                    && reply is Ok
            &&& exists|reply: Result<(), RoundMaterialUnavailable>| #[trigger]
                E::may_fill(draws.after_token, draws.after_journal, generation.keys.replay_journal_key@, reply)
                    && reply is Ok
            &&& E::may_fill(draws.after_journal, after, draws.epoch@, draws.epoch_reply)
            &&& generation.key_epoch % 2 == 1
            &&& generation.key_epoch / 2 == (crate::bytes::be_u64(draws.epoch@) as u64) / 2
        },
        draws.request_key is Err ==> after == draws.after_request,
        draws.request_key is Ok && draws.response_key is Err ==> after == draws.after_response,
        draws.request_key is Ok && draws.response_key is Ok && draws.token_key is Err ==> after
            == draws.after_token,
{
    if let Ok(generation) = result {
        lemma_drawn_key_was_filled(before, draws.after_request, generation.keys.request_key);
        lemma_drawn_key_was_filled(
            draws.after_request,
            draws.after_response,
            generation.keys.response_key,
        );
        lemma_drawn_key_was_filled(
            draws.after_response,
            draws.after_token,
            generation.keys.token_key,
        );
        lemma_drawn_key_was_filled(
            draws.after_token,
            draws.after_journal,
            generation.keys.replay_journal_key,
        );
    }
    let drawn = crate::bytes::be_u64(draws.epoch@) as u64;
    assert((drawn | 1) % 2 == 1 && (drawn | 1) / 2 == drawn / 2) by (bit_vector);
}

/// Draws one key.
fn draw_key<E: RoundEntropy>(entropy: &mut E) -> (result: Result<
    [u8; PRIVATE_RUNTIME_KEY_BYTES],
    PrivateQueryUnavailable,
>)
    ensures
        key_is_drawn(*old(entropy), *final(entropy), result),
{
    let mut bytes: [u8; PRIVATE_RUNTIME_KEY_BYTES] = [0u8; PRIVATE_RUNTIME_KEY_BYTES];
    let reply = entropy.fill(&mut bytes);
    assert(E::may_fill(*old(entropy), *entropy, bytes@, reply));
    match reply {
        Ok(()) => Ok(bytes),
        Err(_) => Err(PrivateQueryUnavailable),
    }
}

/// The subset of runtime keys a wallet may hold.
///
/// A wallet that held the token key could mint tokens, and the journal key
/// protects durable server state: neither has a place here.
pub struct ReleasableSessionKeys {
    /// Seals request envelopes.
    pub request_key: [u8; PRIVATE_RUNTIME_KEY_BYTES],
    /// Opens response envelopes.
    pub response_key: [u8; PRIVATE_RUNTIME_KEY_BYTES],
}

impl ReleasableSessionKeys {
    /// Redacted rendering for logs.
    pub fn debug_text(&self) -> (text: &'static str)
        ensures
            text@ == "ReleasableSessionKeys { ..REDACTED.. }"@,
    {
        "ReleasableSessionKeys { ..REDACTED.. }"
    }
}

/// Everything a wallet needs to seal a query, and nothing else.
pub struct SessionBootstrap {
    /// Identifies the key generation that the keys belong to.
    pub key_epoch: u64,
    /// The two keys a wallet may hold.
    pub keys: ReleasableSessionKeys,
    /// Human-readable name of the compiled privacy profile, for diagnostics.
    pub profile_label: &'static str,
    /// Authoritative identifier of the compiled privacy profile.
    pub profile_id: [u8; PRIVATE_PROFILE_ID_BYTES],
}

impl SessionBootstrap {
    /// Redacted rendering for logs.
    pub fn debug_text(&self) -> (text: &'static str)
        ensures
            text@ == "SessionBootstrap { ..REDACTED.. }"@,
    {
        "SessionBootstrap { ..REDACTED.. }"
    }
}

/// One finalized block of the public chain.
#[derive(Debug, Clone, Copy, PartialEq, Eq)]
pub struct PublicChainCheckpoint {
    pub height: u32,
    /// Hash of the block, in display order.
    pub block_hash: [u8; 32],
}

impl PublicChainCheckpoint {
    /// Whether two checkpoints name the same block.
    pub fn same(&self, other: &Self) -> (same: bool)
        ensures
            same == (*self == *other),
    {
        self.height == other.height && crate::bytes::arrays_equal(
            &self.block_hash,
            &other.block_hash,
        )
    }
}

/// The projection's worker could not do what it was asked.
#[derive(Debug, Clone, Copy, PartialEq, Eq, Structural)]
pub struct ProjectionUnavailable;

/// One worker that projects canonical blocks into a served generation.
///
/// It fails closed on any gap or fork.
pub trait OfflineProjectionOwner: Sized {
    type Block;

    type Store;

    /// The replies that starting a worker may give.
    open spec fn may_open(
        config: ProjectionConfig,
        layout: FixedProbeLayout,
        queue_capacity: usize,
        reply: Result<Self, ProjectionUnavailable>,
    ) -> bool {
        true
    }

    /// The replies that applying a block may give, and the state it may leave.
    open spec fn may_apply(
        before: Self,
        block: Self::Block,
        after: Self,
        reply: Result<PublicChainCheckpoint, ProjectionUnavailable>,
    ) -> bool {
        true
    }

    /// The replies that sealing a generation may give, and the state it may leave.
    open spec fn may_finish(
        before: Self,
        target: PublicChainCheckpoint,
        after: Self,
        reply: Result<PublicChainCheckpoint, ProjectionUnavailable>,
    ) -> bool {
        true
    }

    /// The stores that a sealed worker may yield.
    open spec fn may_yield(self, reply: Result<Self::Store, ProjectionUnavailable>) -> bool {
        true
    }

    /// Whether this worker may have been shut down.
    open spec fn may_shut_down(self) -> bool {
        true
    }

    fn open(config: ProjectionConfig, layout: FixedProbeLayout, queue_capacity: usize) -> (reply:
        Result<Self, ProjectionUnavailable>)
        ensures
            Self::may_open(config, layout, queue_capacity, reply),
    ;

    fn apply_finalized(&mut self, block: &Self::Block) -> (reply: Result<
        PublicChainCheckpoint,
        ProjectionUnavailable,
    >)
        ensures
            Self::may_apply(*old(self), *block, *final(self), reply),
    ;

    fn finish(&mut self, target: PublicChainCheckpoint) -> (reply: Result<
        PublicChainCheckpoint,
        ProjectionUnavailable,
    >)
        ensures
            Self::may_finish(*old(self), target, *final(self), reply),
    ;

    fn into_serving_store(self) -> (reply: Result<Self::Store, ProjectionUnavailable>)
        ensures
            self.may_yield(reply),
    ;

    /// Stops the worker and lets its state go.
    fn shutdown(self)
        ensures
            self.may_shut_down(),
    ;
}

/// One completed, read-only finalized projection generation.
pub struct FinalizedProjection<Store> {
    pub store: Store,
    pub checkpoint: PublicChainCheckpoint,
}

impl<Store> FinalizedProjection<Store> {
    /// Height of the finalized checkpoint this generation committed to.
    pub fn committed_height(&self) -> (height: u32)
        ensures
            height == self.checkpoint.height,
    {
        self.checkpoint.height
    }

    /// Redacted rendering for logs.
    pub fn debug_text(&self) -> (text: &'static str)
        ensures
            text@ == "FinalizedProjection { ..REDACTED.. }"@,
    {
        "FinalizedProjection { ..REDACTED.. }"
    }
}

/// Builds one finalized projection generation from canonical blocks.
///
/// Blocks arrive in canonical order from the chain's genesis. A builder that
/// failed cannot be finished.
pub struct FinalizedProjectionBuilder<O> {
    pub owner: Option<O>,
    pub latest: Option<PublicChainCheckpoint>,
}

/// How starting a builder ends.
pub open spec fn start_ends<O: OfflineProjectionOwner>(
    shape: PrivateProjectionShape,
    layout: FixedProbeLayout,
    reply: Result<O, ProjectionUnavailable>,
    result: Result<FinalizedProjectionBuilder<O>, PrivateQueryUnavailable>,
) -> bool {
    &&& shape.lays_out(layout)
    &&& O::may_open(shape.config(), layout, QUEUE_CAPACITY, reply)
    &&& result == match reply {
        Ok(owner) => Ok((FinalizedProjectionBuilder { owner: Some(owner), latest: None })),
        Err(_) => Err(PrivateQueryUnavailable),
    }
}

/// How pushing one block ends.
///
/// A block that the worker refuses costs the worker, which is shut down as the refusal
/// left it; the last checkpoint stays as it was.
pub open spec fn push_ends<O: OfflineProjectionOwner>(
    before: FinalizedProjectionBuilder<O>,
    block: O::Block,
    after: FinalizedProjectionBuilder<O>,
    result: Result<(), PrivateQueryUnavailable>,
) -> bool {
    match before.owner {
        None => result is Err && after == before,
        Some(owner) => exists|
            left: O,
            reply: Result<PublicChainCheckpoint, ProjectionUnavailable>,
        | #[trigger]
            O::may_apply(owner, block, left, reply) && match reply {
                Ok(checkpoint) => result is Ok && after == (FinalizedProjectionBuilder {
                    owner: Some(left),
                    latest: Some(checkpoint),
                }),
                Err(_) => result is Err && left.may_shut_down() && after == (
                FinalizedProjectionBuilder { owner: None::<O>, latest: before.latest }),
            },
    }
}

/// How sealing a generation ends: at its last block, or not at all.
pub open spec fn finish_ends<O: OfflineProjectionOwner>(
    owner: O,
    target: PublicChainCheckpoint,
    sealed: O,
    sealed_at: Result<PublicChainCheckpoint, ProjectionUnavailable>,
    yielded: Result<O::Store, ProjectionUnavailable>,
    result: Result<FinalizedProjection<O::Store>, PrivateQueryUnavailable>,
) -> bool {
    &&& O::may_finish(owner, target, sealed, sealed_at)
    &&& if sealed_at == Ok::<PublicChainCheckpoint, ProjectionUnavailable>(target) {
        &&& sealed.may_yield(yielded)
        &&& result == match yielded {
            Ok(store) => Ok((FinalizedProjection { store, checkpoint: target })),
            Err(_) => Err(PrivateQueryUnavailable),
        }
    } else {
        result is Err
    }
}

/// How finishing a builder ends.
///
/// Without an applied block, or after a failure, there is nothing to seal, and a worker
/// that is still there is shut down.
pub open spec fn builder_finishes<O: OfflineProjectionOwner>(
    builder: FinalizedProjectionBuilder<O>,
    result: Result<FinalizedProjection<O::Store>, PrivateQueryUnavailable>,
) -> bool {
    match (builder.latest, builder.owner) {
        (Some(target), Some(owner)) => exists|
            sealed: O,
            sealed_at: Result<PublicChainCheckpoint, ProjectionUnavailable>,
            yielded: Result<O::Store, ProjectionUnavailable>,
        | #[trigger] finish_ends(owner, target, sealed, sealed_at, yielded, result),
        (None, Some(owner)) => result is Err && owner.may_shut_down(),
        (_, None) => result is Err,
    }
}

/// A push that succeeds leaves the worker as the block left it, and the checkpoint that the
/// worker gave for the block as the last one. A push that fails leaves no worker and the
/// last checkpoint as it was; it fails only without a worker or where the worker refused.
pub proof fn pushed_block_is_the_last_one<O: OfflineProjectionOwner>(
    before: FinalizedProjectionBuilder<O>,
    block: O::Block,
    after: FinalizedProjectionBuilder<O>,
    result: Result<(), PrivateQueryUnavailable>,
)
    requires
        push_ends(before, block, after, result),
    ensures
        result is Ok ==> before.owner is Some && after.owner is Some && after.latest is Some
            && O::may_apply(
            before.owner->Some_0,
            block,
            after.owner->Some_0,
            Ok(after.latest->Some_0),
        ),
        result is Err ==> after.owner is None && after.latest == before.latest,
        result is Err && before.owner is Some ==> exists|
            left: O,
            refusal: ProjectionUnavailable,
        | #[trigger]
            O::may_apply(before.owner->Some_0, block, left, Err(refusal)) && left.may_shut_down(),
{
    if before.owner is Some {
        let owner = before.owner->Some_0;
        let (left, reply) = choose|
            left: O,
            reply: Result<PublicChainCheckpoint, ProjectionUnavailable>,
        | #[trigger]
            O::may_apply(owner, block, left, reply) && match reply {
                Ok(checkpoint) => result is Ok && after.owner == Some(left) && after.latest == Some(
                    checkpoint,
                ),
                Err(_) => result is Err && left.may_shut_down() && after.owner is None
                    && after.latest == before.latest,
            };
        if reply is Err {
            assert(O::may_apply(owner, block, left, Err(reply->Err_0)));
        } else {
            assert(O::may_apply(owner, block, left, Ok(reply->Ok_0)));
        }
    }
}

/// A generation is sealed at the last block that was applied and holds what the sealed
/// worker yields. A builder that has a worker and a block fails to finish only where the
/// worker does not seal at that block or yields nothing.
pub proof fn generation_is_sealed_at_the_last_block<O: OfflineProjectionOwner>(
    builder: FinalizedProjectionBuilder<O>,
    result: Result<FinalizedProjection<O::Store>, PrivateQueryUnavailable>,
)
    requires
        builder_finishes(builder, result),
    ensures
        result matches Ok(projection) ==> builder.owner is Some && builder.latest == Some(
            projection.checkpoint,
        ) && exists|sealed: O|
            #![trigger O::may_finish(builder.owner->Some_0, projection.checkpoint, sealed, Ok(projection.checkpoint))]
            O::may_finish(
                builder.owner->Some_0,
                projection.checkpoint,
                sealed,
                Ok(projection.checkpoint),
            ) && sealed.may_yield(Ok(projection.store)),
        builder.owner is Some && builder.latest is Some && result is Err ==> exists|
            sealed: O,
            sealed_at: Result<PublicChainCheckpoint, ProjectionUnavailable>,
        | #[trigger]
            O::may_finish(builder.owner->Some_0, builder.latest->Some_0, sealed, sealed_at) && (
            sealed_at is Err || sealed_at->Ok_0 != builder.latest->Some_0 || exists|refusal: ProjectionUnavailable|
                #[trigger] sealed.may_yield(Err(refusal))),
{
    if builder.owner is Some && builder.latest is Some {
        let owner = builder.owner->Some_0;
        let latest = builder.latest->Some_0;
        let (sealed, sealed_at, yielded) = choose|
            sealed: O,
            sealed_at: Result<PublicChainCheckpoint, ProjectionUnavailable>,
            yielded: Result<O::Store, ProjectionUnavailable>,
        | #[trigger] finish_ends(owner, latest, sealed, sealed_at, yielded, result);
        assert(O::may_finish(owner, latest, sealed, sealed_at));
        if result is Ok {
            assert(sealed_at == Ok::<PublicChainCheckpoint, ProjectionUnavailable>(latest));
            assert(yielded == Ok::<O::Store, ProjectionUnavailable>(result->Ok_0.store));
        } else if sealed_at == Ok::<PublicChainCheckpoint, ProjectionUnavailable>(latest) {
            assert(sealed.may_yield(Err(yielded->Err_0)));
        }
    }
}

/// Step `i` of a run of pushes.
pub open spec fn pushes_at<O: OfflineProjectionOwner>(
    builders: Seq<FinalizedProjectionBuilder<O>>,
    blocks: Seq<O::Block>,
    results: Seq<Result<(), PrivateQueryUnavailable>>,
    i: int,
) -> bool {
    push_ends(builders[i], blocks[i], builders[i + 1], results[i])
}

/// Whether pushing these blocks one after another takes a builder through these states
/// with these results.
pub open spec fn pushes<O: OfflineProjectionOwner>(
    builders: Seq<FinalizedProjectionBuilder<O>>,
    blocks: Seq<O::Block>,
    results: Seq<Result<(), PrivateQueryUnavailable>>,
) -> bool {
    &&& builders.len() == blocks.len() + 1
    &&& results.len() == blocks.len()
    &&& forall|i: int|
        0 <= i < blocks.len() ==> #[trigger] pushes_at(builders, blocks, results, i)
}

/// Whether every checkpoint that a worker gives for an applied block is that block's own.
pub open spec fn names_its_blocks<O: OfflineProjectionOwner>(
    checkpoint_of: spec_fn(O::Block) -> PublicChainCheckpoint,
) -> bool {
    forall|before: O, block: O::Block, after: O, checkpoint: PublicChainCheckpoint|
        #[trigger] O::may_apply(before, block, after, Ok(checkpoint)) ==> checkpoint
            == checkpoint_of(block)
}

/// After a failed push the builder stays without a worker.
proof fn lemma_worker_stays_gone<O: OfflineProjectionOwner>(
    builders: Seq<FinalizedProjectionBuilder<O>>,
    blocks: Seq<O::Block>,
    results: Seq<Result<(), PrivateQueryUnavailable>>,
    failed: int,
    i: int,
)
    requires
        pushes(builders, blocks, results),
        0 <= failed < i <= blocks.len(),
        results[failed] is Err,
    ensures
        builders[i].owner is None,
    decreases i,
{
    assert(pushes_at(builders, blocks, results, i - 1));
    if failed < i - 1 {
        lemma_worker_stays_gone(builders, blocks, results, failed, i - 1);
    }
}

/// A failed push is final: every push after it fails, and so does finishing.
pub proof fn failed_push_is_final<O: OfflineProjectionOwner>(
    builders: Seq<FinalizedProjectionBuilder<O>>,
    blocks: Seq<O::Block>,
    results: Seq<Result<(), PrivateQueryUnavailable>>,
    failed: int,
    finished: Result<FinalizedProjection<O::Store>, PrivateQueryUnavailable>,
)
    requires
        pushes(builders, blocks, results),
        0 <= failed < blocks.len(),
        results[failed] is Err,
        builder_finishes(builders.last(), finished),
    ensures
        forall|later: int| failed <= later < blocks.len() ==> (#[trigger] results[later]) is Err,
        finished is Err,
{
    assert forall|later: int| failed <= later < blocks.len() implies (
    #[trigger] results[later]) is Err by {
        if failed < later {
            lemma_worker_stays_gone(builders, blocks, results, failed, later);
            assert(pushes_at(builders, blocks, results, later));
        }
    }
    lemma_worker_stays_gone(builders, blocks, results, failed, blocks.len() as int);
}

/// A finished projection stands at its last block: something was pushed, every push
/// succeeded, and the checkpoint it committed to is the one that the worker gave for the
/// last block pushed. Where the worker names its blocks, that is the last block's own.
pub proof fn finished_projection_stands_at_its_last_block<O: OfflineProjectionOwner>(
    builders: Seq<FinalizedProjectionBuilder<O>>,
    blocks: Seq<O::Block>,
    results: Seq<Result<(), PrivateQueryUnavailable>>,
    projection: FinalizedProjection<O::Store>,
    checkpoint_of: spec_fn(O::Block) -> PublicChainCheckpoint,
)
    requires
        pushes(builders, blocks, results),
        builders[0].latest is None,
        builder_finishes(builders.last(), Ok(projection)),
    ensures
        blocks.len() > 0,
        forall|i: int| 0 <= i < blocks.len() ==> (#[trigger] results[i]) is Ok,
        exists|before: O, after: O| #[trigger]
            O::may_apply(before, blocks.last(), after, Ok(projection.checkpoint)),
        names_its_blocks::<O>(checkpoint_of) ==> projection.checkpoint == checkpoint_of(
            blocks.last(),
        ),
{
    assert(builders.last().owner is Some && builders.last().latest is Some);
    assert forall|i: int| 0 <= i < blocks.len() implies (#[trigger] results[i]) is Ok by {
        if results[i] is Err {
            failed_push_is_final(builders, blocks, results, i, Ok(projection));
        }
    }
    let last = blocks.len() - 1;
    assert(pushes_at(builders, blocks, results, last));
    assert(results[last] is Ok);
    let owner = builders[last].owner->Some_0;
    let (left, reply) = choose|
        left: O,
        reply: Result<PublicChainCheckpoint, ProjectionUnavailable>,
    | #[trigger]
        O::may_apply(owner, blocks[last], left, reply) && match reply {
            Ok(checkpoint) => builders[last + 1] == (FinalizedProjectionBuilder {
                owner: Some(left),
                latest: Some(checkpoint),
            }),
            Err(_) => false,
        };
    assert(reply == Ok::<PublicChainCheckpoint, ProjectionUnavailable>(projection.checkpoint));
    assert(O::may_apply(owner, blocks.last(), left, Ok(projection.checkpoint)));
}

impl<O: OfflineProjectionOwner> FinalizedProjectionBuilder<O> {
    /// Allocates one fresh projection worker for a shape.
    ///
    /// A shape too narrow to answer one compiled query is refused up front: that
    /// failure is cheap here and expensive after a full replay.
    pub fn start(
        shape: &PrivateProjectionShape,
        profile: &Result<PrivacyProfile, ProfileMismatch>,
    ) -> (result: Result<Self, PrivateQueryUnavailable>)
        ensures
            *profile is Err || shape.max_events_per_address < profile->Ok_0.store_reads
                || !shape.is_identified() || !shape.fits_tables() ==> result is Err,
            *profile is Ok && shape.max_events_per_address >= profile->Ok_0.store_reads
                && shape.is_identified() && shape.fits_tables() ==> exists|
                layout: FixedProbeLayout,
                reply: Result<O, ProjectionUnavailable>,
            | #[trigger] start_ends(*shape, layout, reply, result),
            result matches Ok(builder) ==> builder.owner is Some && builder.latest is None,
            result is Ok ==> {
                &&& shape.schema_version > 0 && shape.key_epoch > 0 && shape.projection_epoch > 0
                &&& shape.directory_admission < shape.directory_capacity
                &&& vstd::arithmetic::power2::is_pow2(shape.directory_capacity as int)
                &&& shape.event_admission < shape.event_capacity
                &&& vstd::arithmetic::power2::is_pow2(shape.event_capacity as int)
                &&& shape.max_events_per_address <= shape.event_admission
                &&& profile matches Ok(profile) && profile.store_reads
                    <= shape.max_events_per_address
            },
            result is Ok ==> exists|
                config: ProjectionConfig,
                layout: FixedProbeLayout,
                reply: Result<O, ProjectionUnavailable>,
            | #[trigger]
                O::may_open(config, layout, 1, reply) && layout.directory.capacity
                    == shape.directory_capacity && layout.events.capacity == shape.event_capacity
                    && layout.directory.admission == shape.directory_admission
                    && layout.events.admission == shape.event_admission,
    {
        let store_reads: usize = match private_mainnet_store_reads(profile) {
            Ok(reads) => reads,
            Err(error) => {
                return Err(error);
            },
        };
        if shape.max_events_per_address < store_reads {
            return Err(PrivateQueryUnavailable);
        }
        let config = match shape.projection_config() {
            Ok(config) => config,
            Err(error) => {
                return Err(error);
            },
        };
        let layout = match shape.layout() {
            Ok(layout) => layout,
            Err(error) => {
                return Err(error);
            },
        };
        let opened = O::open(config, layout, QUEUE_CAPACITY);
        let ghost reply = opened;
        match opened {
            Ok(owner) => {
                let builder = FinalizedProjectionBuilder { owner: Some(owner), latest: None };
                assert(O::may_open(config, layout, QUEUE_CAPACITY, reply));
                assert(start_ends::<O>(*shape, layout, reply, Ok(builder)));
                Ok(builder)
            },
            Err(_) => {
                assert(start_ends::<O>(*shape, layout, reply, Err(PrivateQueryUnavailable)));
                Err(PrivateQueryUnavailable)
            },
        }
    }

    /// Applies one canonical finalized block.
    ///
    /// A block that cannot be applied discards the builder's worker, and a builder without
    /// a worker applies nothing more.
    pub fn push(&mut self, block: &O::Block) -> (result: Result<(), PrivateQueryUnavailable>)
        ensures
            push_ends(*old(self), *block, *final(self), result),
    {
        let mut owner = match self.owner.take() {
            Some(owner) => owner,
            None => {
                return Err(PrivateQueryUnavailable);
            },
        };
        match owner.apply_finalized(block) {
            Ok(checkpoint) => {
                self.owner = Some(owner);
                self.latest = Some(checkpoint);
                Ok(())
            },
            Err(_) => {
                self.owner = Some(owner);
                self.fail_and_discard();
                Err(PrivateQueryUnavailable)
            },
        }
    }

    /// Seals the generation at the last applied block and yields it for serving.
    ///
    /// Without an applied block, or after a failure, there is nothing to seal: a worker that
    /// applied no block is shut down.
    pub fn finish(self) -> (result: Result<FinalizedProjection<O::Store>, PrivateQueryUnavailable>)
        ensures
            builder_finishes(self, result),
            self.latest is None && self.owner is Some ==> self.owner->Some_0.may_shut_down(),
    {
        let target = match self.latest {
            Some(target) => target,
            None => {
                let mut unsealed = self;
                unsealed.fail_and_discard();
                return Err(PrivateQueryUnavailable);
            },
        };
        let ghost opened = self.owner->Some_0;
        let mut owner = match self.owner {
            Some(owner) => owner,
            None => {
                return Err(PrivateQueryUnavailable);
            },
        };
        let sealed_at = owner.finish(target);
        let ghost sealed = owner;
        let sealed_in_place = match &sealed_at {
            Ok(checkpoint) => checkpoint.same(&target),
            Err(_) => false,
        };
        if !sealed_in_place {
            assert(finish_ends(
                opened,
                target,
                sealed,
                sealed_at,
                arbitrary(),
                Err(PrivateQueryUnavailable),
            ));
            return Err(PrivateQueryUnavailable);
        }
        let yielded = owner.into_serving_store();
        let ghost reply = yielded;
        match yielded {
            Ok(store) => {
                let projection = FinalizedProjection { store, checkpoint: target };
                assert(finish_ends(opened, target, sealed, sealed_at, reply, Ok(projection)));
                Ok(projection)
            },
            Err(_) => {
                assert(finish_ends(
                    opened,
                    target,
                    sealed,
                    sealed_at,
                    reply,
                    Err(PrivateQueryUnavailable),
                ));
                Err(PrivateQueryUnavailable)
            },
        }
    }

    /// Shuts the worker down, if there is one.
    pub fn fail_and_discard(&mut self)
        ensures
            final(self).owner is None,
            final(self).latest == old(self).latest,
            old(self).owner matches Some(owner) ==> owner.may_shut_down(),
    {
        match self.owner.take() {
            Some(owner) => {
                owner.shutdown();
            },
            None => {},
        }
    }

    /// Redacted rendering for logs.
    pub fn debug_text(&self) -> (text: &'static str)
        ensures
            text@ == "FinalizedProjectionBuilder { ..REDACTED.. }"@,
    {
        "FinalizedProjectionBuilder { ..REDACTED.. }"
    }
}

/// The layout is seeded over the domain, the network's number, the schema in four bytes, and
/// nine numbers of eight bytes: both epochs, both tables' slots, the outputs seen and live,
/// both admissions, and the events of an address, in this order.
pub proof fn layout_seed_is_in_order(shape: PrivateProjectionShape)
    ensures
        ({
            let preimage = shape.seed_preimage();
            &&& preimage.len() == 119
            &&& preimage.take(42) == LAYOUT_SEED_DOMAIN@
            &&& preimage[42] == 0 <==> shape.network is Mainnet
            &&& preimage[42] == 1 <==> shape.network is Testnet
            &&& preimage[42] == 2 <==> shape.network is Regtest
            &&& preimage.subrange(43, 47) == crate::bytes::u32_be(shape.schema_version)
            &&& preimage.subrange(47, 55) == crate::bytes::u64_be(shape.key_epoch)
            &&& preimage.subrange(55, 63) == crate::bytes::u64_be(shape.projection_epoch)
            &&& preimage.subrange(63, 71) == crate::bytes::u64_be(shape.directory_capacity)
            &&& preimage.subrange(71, 79) == crate::bytes::u64_be(shape.event_capacity)
            &&& preimage.subrange(79, 87) == crate::bytes::u64_be(shape.max_seen_outputs as u64)
            &&& preimage.subrange(87, 95) == crate::bytes::u64_be(shape.max_live_outputs as u64)
            &&& preimage.subrange(95, 103) == crate::bytes::u64_be(shape.directory_admission as u64)
            &&& preimage.subrange(103, 111) == crate::bytes::u64_be(shape.event_admission as u64)
            &&& preimage.subrange(111, 119) == crate::bytes::u64_be(
                shape.max_events_per_address as u64,
            )
        }),
{
    let head = LAYOUT_SEED_DOMAIN@ + seq![shape.network.spec_tag()] + crate::bytes::u32_be(
        shape.schema_version,
    );
    assert(head.take(42) =~= LAYOUT_SEED_DOMAIN@);
    assert(head.subrange(43, 47) =~= crate::bytes::u32_be(shape.schema_version));
    lemma_nine_numbers(
        head,
        crate::bytes::u64_be(shape.key_epoch),
        crate::bytes::u64_be(shape.projection_epoch),
        crate::bytes::u64_be(shape.directory_capacity),
        crate::bytes::u64_be(shape.event_capacity),
        crate::bytes::u64_be(shape.max_seen_outputs as u64),
        crate::bytes::u64_be(shape.max_live_outputs as u64),
        crate::bytes::u64_be(shape.directory_admission as u64),
        crate::bytes::u64_be(shape.event_admission as u64),
        crate::bytes::u64_be(shape.max_events_per_address as u64),
    );
    let preimage = shape.seed_preimage();
    assert(preimage.take(42) =~= preimage.take(47).take(42));
    assert(preimage.subrange(43, 47) =~= preimage.take(47).subrange(43, 47));
    assert(preimage[42] == preimage.take(47)[42]);
}

proof fn lemma_nine_numbers(
    head: Seq<u8>,
    a: Seq<u8>,
    b: Seq<u8>,
    c: Seq<u8>,
    d: Seq<u8>,
    e: Seq<u8>,
    f: Seq<u8>,
    g: Seq<u8>,
    h: Seq<u8>,
    i: Seq<u8>,
)
    requires
        head.len() == 47,
        a.len() == 8,
        b.len() == 8,
        c.len() == 8,
        d.len() == 8,
        e.len() == 8,
        f.len() == 8,
        g.len() == 8,
        h.len() == 8,
        i.len() == 8,
    ensures
        ({
            let whole = head + a + b + c + d + e + f + g + h + i;
            &&& whole.len() == 119
            &&& whole.take(47) == head
            &&& whole.subrange(47, 55) == a
            &&& whole.subrange(55, 63) == b
            &&& whole.subrange(63, 71) == c
            &&& whole.subrange(71, 79) == d
            &&& whole.subrange(79, 87) == e
            &&& whole.subrange(87, 95) == f
            &&& whole.subrange(95, 103) == g
            &&& whole.subrange(103, 111) == h
            &&& whole.subrange(111, 119) == i
        }),
{
    let whole = head + a + b + c + d + e + f + g + h + i;
    assert(whole.take(47) =~= head);
    assert(whole.subrange(47, 55) =~= a);
    assert(whole.subrange(55, 63) =~= b);
    assert(whole.subrange(63, 71) =~= c);
    assert(whole.subrange(71, 79) =~= d);
    assert(whole.subrange(79, 87) =~= e);
    assert(whole.subrange(87, 95) =~= f);
    assert(whole.subrange(95, 103) =~= g);
    assert(whole.subrange(103, 111) =~= h);
    assert(whole.subrange(111, 119) =~= i);
}

/// The domain of a layout seed, in plain letters and a zero byte.
pub proof fn layout_seed_domain_is_in_plain_letters()
    ensures
        LAYOUT_SEED_DOMAIN@.drop_last().map_values(|byte: u8| byte as char)
            == "zaino-oram/private-service-layout-seed/v1"@,
        LAYOUT_SEED_DOMAIN@.last() == 0,
{
    reveal_strlit("zaino-oram/private-service-layout-seed/v1");
    assert(LAYOUT_SEED_DOMAIN@.drop_last().map_values(|byte: u8| byte as char)
        =~= "zaino-oram/private-service-layout-seed/v1"@);
}

} // verus!
