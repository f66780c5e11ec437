//! Queries, result pages and checkpoints.

use crate::bytes::append;
use crate::bytes::append_zeros;
use crate::bytes::arrays_equal;
use vstd::prelude::*;

verus! {

pub const ADDRESS_KEY_BYTES: usize = 32;

pub const TXID_BYTES: usize = 32;

/// Chain a private deployment projects and serves.
#[derive(Debug, Clone, Copy, PartialEq, Eq, Structural)]
pub enum PrivateNetwork {
    /// Zcash mainnet.
    Mainnet,
    /// The public Zcash test network.
    Testnet,
    /// A local regression-test network.
    Regtest,
}

/// The tag names no network.
#[derive(Debug, Clone, Copy, PartialEq, Eq, Structural)]
pub struct UnknownNetworkTag;

impl PrivateNetwork {
    pub open spec fn spec_tag(self) -> u8 {
        match self {
            Self::Mainnet => 0,
            Self::Testnet => 1,
            Self::Regtest => 2,
        }
    }

    pub fn tag(self) -> (tag: u8)
        ensures
            tag == self.spec_tag(),
    {
        match self {
            Self::Mainnet => 0,
            Self::Testnet => 1,
            Self::Regtest => 2,
        }
    }

    pub fn try_from_tag(tag: u8) -> (result: Result<Self, UnknownNetworkTag>)
        ensures
            match result {
                Ok(network) => network.spec_tag() == tag,
                Err(_) => tag > 2,
            },
    {
        if tag == 0 {
            Ok(Self::Mainnet)
        } else if tag == 1 {
            Ok(Self::Testnet)
        } else if tag == 2 {
            Ok(Self::Regtest)
        } else {
            Err(UnknownNetworkTag)
        }
    }
}

/// One query for the outputs of an address.
#[derive(Clone, Copy, PartialEq, Eq)]
pub struct UtxoQuery {
    /// Key of the address, or nothing if the address is outside the supported domain.
    pub address_key: Option<[u8; ADDRESS_KEY_BYTES]>,
    pub minimum_height: u32,
}

impl UtxoQuery {
    pub fn new(address_key: [u8; ADDRESS_KEY_BYTES], minimum_height: u32) -> (query: Self)
        ensures
            query == (UtxoQuery { address_key: Some(address_key), minimum_height }),
    {
        UtxoQuery { address_key: Some(address_key), minimum_height }
    }

    /// Takes a key of the right width; any other is outside the supported domain.
    pub fn from_untrusted_address_key(bytes: &[u8], minimum_height: u32) -> (query: Self)
        ensures
            query.minimum_height == minimum_height,
            match query.address_key {
                Some(key) => key@ == bytes@,
                None => bytes@.len() != ADDRESS_KEY_BYTES,
            },
    {
        if bytes.len() != ADDRESS_KEY_BYTES {
            return UtxoQuery { address_key: None, minimum_height };
        }
        let key: [u8; ADDRESS_KEY_BYTES] = crate::bytes::read_array(bytes, 0);
        assert(bytes@.subrange(0, ADDRESS_KEY_BYTES as int) =~= bytes@);
        UtxoQuery { address_key: Some(key), minimum_height }
    }
}

/// Classification of a result page.
#[derive(Debug, Clone, Copy, PartialEq, Eq, Structural)]
pub enum QueryOutcome {
    Complete,
    ResultBudgetExceeded,
    InvalidDomain,
    StoreFailure,
    ProjectionNotReady,
    InvalidContinuation,
    /// A classification of another service, which no wallet is shown.
    Unclassified,
}

/// One transparent output, with its script padded to the record's width.
#[derive(Debug, PartialEq, Eq)]
pub struct TransparentUtxo {
    txid: [u8; TXID_BYTES],
    output_index: u32,
    value_zat: u64,
    height: u32,
    padded_script: Vec<u8>,
    script_len: usize,
}

/// What one transparent output is, without its padding.
pub struct UtxoModel {
    pub txid: [u8; TXID_BYTES],
    pub output_index: u32,
    pub value_zat: u64,
    pub height: u32,
    pub script: Seq<u8>,
}

impl View for TransparentUtxo {
    type V = UtxoModel;

    closed spec fn view(&self) -> UtxoModel {
        UtxoModel {
            txid: self.txid,
            output_index: self.output_index,
            value_zat: self.value_zat,
            height: self.height,
            script: self.padded_script@.take(self.script_len as int),
        }
    }
}

impl TransparentUtxo {
    /// The script is no longer than its padding.
    #[verifier::type_invariant]
    spec fn inv(self) -> bool {
        self.script_len <= self.padded_script@.len()
    }

    /// Pads a script to the record's width, if it fits.
    pub fn new(
        txid: [u8; TXID_BYTES],
        output_index: u32,
        value_zat: u64,
        height: u32,
        script: &[u8],
        record_script_bytes: usize,
    ) -> (record: Option<Self>)
        ensures
            match record {
                Some(record) => script@.len() <= record_script_bytes && record@ == (UtxoModel {
                    txid,
                    output_index,
                    value_zat,
                    height,
                    script: script@,
                }),
                None => script@.len() > record_script_bytes,
            },
    {
        let script_len: usize = script.len();
        if script_len > record_script_bytes {
            return None;
        }
        let mut padded_script: Vec<u8> = Vec::new();
        append(&mut padded_script, script);
        append_zeros(&mut padded_script, record_script_bytes - script_len);
        assert(padded_script@.take(script_len as int) =~= script@);
        Some(
            TransparentUtxo { txid, output_index, value_zat, height, padded_script, script_len },
        )
    }

    pub fn txid(&self) -> (txid: &[u8; TXID_BYTES])
        ensures
            *txid == self@.txid,
    {
        &self.txid
    }

    pub fn output_index(&self) -> (index: u32)
        ensures
            index == self@.output_index,
    {
        self.output_index
    }

    pub fn value_zat(&self) -> (value: u64)
        ensures
            value == self@.value_zat,
    {
        self.value_zat
    }

    pub fn height(&self) -> (height: u32)
        ensures
            height == self@.height,
    {
        self.height
    }

    pub fn padded_script(&self) -> (script: &[u8])
        ensures
            self@.script.len() <= script@.len(),
            script@.take(self@.script.len() as int) == self@.script,
    {
        proof {
            use_type_invariant(self);
        }
        self.padded_script.as_slice()
    }

    pub fn script_len(&self) -> (length: usize)
        ensures
            length == self@.script.len(),
    {
        proof {
            use_type_invariant(self);
        }
        self.script_len
    }
}

impl Clone for TransparentUtxo {
    fn clone(&self) -> (copy: Self)
        ensures
            copy@ == self@,
    {
        proof {
            use_type_invariant(self);
        }
        let mut padded_script: Vec<u8> = Vec::new();
        append(&mut padded_script, self.padded_script.as_slice());
        assert(padded_script@ =~= self.padded_script@);
        TransparentUtxo {
            txid: self.txid,
            output_index: self.output_index,
            value_zat: self.value_zat,
            height: self.height,
            padded_script,
            script_len: self.script_len,
        }
    }
}

/// One slot of a result page.
#[derive(Debug, Clone, PartialEq, Eq)]
pub enum ResultSlot {
    Dummy,
    Occupied(TransparentUtxo),
}

impl ResultSlot {
    pub fn is_occupied(&self) -> (occupied: bool)
        ensures
            occupied == (*self is Occupied),
    {
        match self {
            Self::Dummy => false,
            Self::Occupied(_) => true,
        }
    }
}

/// Fixed number of result slots, and what they amount to.
#[derive(Debug, Clone, PartialEq, Eq)]
pub struct UtxoResultPage {
    pub slots: Vec<ResultSlot>,
    pub outcome: QueryOutcome,
}

impl UtxoResultPage {
    /// No slot is occupied.
    pub open spec fn all_dummy(self) -> bool {
        forall|i: int| 0 <= i < self.slots@.len() ==> self.slots@[i] is Dummy
    }

    /// A page whose every slot is a dummy.
    pub fn empty(slot_count: usize) -> (page: Self)
        ensures
            page.slots@.len() == slot_count,
            page.all_dummy(),
            page.outcome is Complete,
    {
        let mut slots: Vec<ResultSlot> = Vec::new();
        let mut index: usize = 0;
        while index < slot_count
            invariant
                index <= slot_count,
                slots@.len() == index,
                forall|i: int| 0 <= i < slots@.len() ==> slots@[i] is Dummy,
            decreases slot_count - index,
        {
            slots.push(ResultSlot::Dummy);
            index = index + 1;
        }
        UtxoResultPage { slots, outcome: QueryOutcome::Complete }
    }

    pub fn outcome(&self) -> (outcome: QueryOutcome)
        ensures
            outcome == self.outcome,
    {
        self.outcome
    }

    pub fn set_outcome(&mut self, outcome: QueryOutcome)
        ensures
            final(self).slots == old(self).slots,
            final(self).outcome == outcome,
    {
        self.outcome = outcome;
    }

    pub fn is_all_dummy(&self) -> (dummy: bool)
        ensures
            dummy == self.all_dummy(),
    {
        let mut index: usize = 0;
        while index < self.slots.len()
            invariant
                index <= self.slots@.len(),
                forall|i: int| 0 <= i < index ==> self.slots@[i] is Dummy,
            decreases self.slots@.len() - index,
        {
            if self.slots[index].is_occupied() {
                return false;
            }
            index = index + 1;
        }
        true
    }
}

/// The exact serving state that a request was made for.
#[derive(Clone, Copy, PartialEq, Eq)]
pub struct PrivateQueryCheckpoint {
    pub network: PrivateNetwork,
    pub height: u32,
    pub block_hash_display: [u8; 32],
    pub schema_version: u32,
    pub projection_epoch: u64,
    pub key_epoch: u64,
}

impl PrivateQueryCheckpoint {
    pub fn new(
        network: PrivateNetwork,
        height: u32,
        block_hash_display: [u8; 32],
        schema_version: u32,
        projection_epoch: u64,
        key_epoch: u64,
    ) -> (checkpoint: Self)
        ensures
            checkpoint == (PrivateQueryCheckpoint {
                network,
                height,
                block_hash_display,
                schema_version,
                projection_epoch,
                key_epoch,
            }),
    {
        PrivateQueryCheckpoint {
            network,
            height,
            block_hash_display,
            schema_version,
            projection_epoch,
            key_epoch,
        }
    }

    /// Whether two checkpoints agree in every field.
    pub fn same(&self, other: &Self) -> (same: bool)
        ensures
            same == (*self == *other),
    {
        self.network == other.network && self.height == other.height && arrays_equal(
            &self.block_hash_display,
            &other.block_hash_display,
        ) && self.schema_version == other.schema_version && self.projection_epoch
            == other.projection_epoch && self.key_epoch == other.key_epoch
    }

    /// Checkpoint of a serving identity with a known network.
    pub fn try_from_serving_identity(identity: &RecentSnapshotIdentity) -> (result: Result<
        Self,
        FinalizedRuntimeBuildError,
    >)
        ensures
            match result {
                Ok(checkpoint) => identity_of(checkpoint) == *identity,
                Err(_) => identity.network_tag > 2,
            },
    {
        let network = match PrivateNetwork::try_from_tag(identity.network_tag) {
            Ok(network) => network,
            Err(_) => {
                return Err(FinalizedRuntimeBuildError);
            },
        };
        Ok(
            PrivateQueryCheckpoint::new(
                network,
                identity.finalized_height,
                identity.finalized_hash_display,
                identity.schema_version,
                identity.projection_epoch,
                identity.key_epoch,
            ),
        )
    }
}

/// Coarsened finalized-runtime construction failure without epoch identifiers.
#[derive(Debug, Clone, Copy, PartialEq, Eq, Structural)]
pub struct FinalizedRuntimeBuildError;

impl FinalizedRuntimeBuildError {
    /// Text shown to an operator.
    pub fn message(&self) -> (text: &'static str)
        ensures
            text@ == "finalized private-query runtime unavailable"@,
    {
        "finalized private-query runtime unavailable"
    }

    /// Redacted rendering for logs.
    pub fn debug_text(&self) -> (text: &'static str)
        ensures
            text@ == "FinalizedRuntimeBuildError { ..REDACTED.. }"@,
    {
        "FinalizedRuntimeBuildError { ..REDACTED.. }"
    }
}

/// Identity of the finalized state that a recent snapshot extends.
#[derive(Clone, Copy, PartialEq, Eq)]
pub struct RecentSnapshotIdentity {
    pub network_tag: u8,
    pub finalized_height: u32,
    pub finalized_hash_display: [u8; 32],
    pub schema_version: u32,
    pub projection_epoch: u64,
    pub key_epoch: u64,
}

impl RecentSnapshotIdentity {
    pub fn new(
        network_tag: u8,
        finalized_height: u32,
        finalized_hash_display: [u8; 32],
        schema_version: u32,
        projection_epoch: u64,
        key_epoch: u64,
    ) -> (identity: Self)
        ensures
            identity == (RecentSnapshotIdentity {
                network_tag,
                finalized_height,
                finalized_hash_display,
                schema_version,
                projection_epoch,
                key_epoch,
            }),
    {
        RecentSnapshotIdentity {
            network_tag,
            finalized_height,
            finalized_hash_display,
            schema_version,
            projection_epoch,
            key_epoch,
        }
    }

    /// Whether two identities agree in every field.
    pub fn same(&self, other: &Self) -> (same: bool)
        ensures
            same == (*self == *other),
    {
        self.network_tag == other.network_tag && self.finalized_height == other.finalized_height
            && arrays_equal(&self.finalized_hash_display, &other.finalized_hash_display)
            && self.schema_version == other.schema_version && self.projection_epoch
            == other.projection_epoch && self.key_epoch == other.key_epoch
    }
}

/// Snapshot identity that a checkpoint stands for.
pub open spec fn identity_of(checkpoint: PrivateQueryCheckpoint) -> RecentSnapshotIdentity {
    RecentSnapshotIdentity {
        network_tag: checkpoint.network.spec_tag(),
        finalized_height: checkpoint.height,
        finalized_hash_display: checkpoint.block_hash_display,
        schema_version: checkpoint.schema_version,
        projection_epoch: checkpoint.projection_epoch,
        key_epoch: checkpoint.key_epoch,
    }
}

/// Checkpoint of an identity with a known network.
pub open spec fn checkpoint_of(identity: RecentSnapshotIdentity) -> PrivateQueryCheckpoint {
    PrivateQueryCheckpoint {
        network: if identity.network_tag == 0 {
            PrivateNetwork::Mainnet
        } else if identity.network_tag == 1 {
            PrivateNetwork::Testnet
        } else {
            PrivateNetwork::Regtest
        },
        height: identity.finalized_height,
        block_hash_display: identity.finalized_hash_display,
        schema_version: identity.schema_version,
        projection_epoch: identity.projection_epoch,
        key_epoch: identity.key_epoch,
    }
}

pub fn recent_snapshot_identity(checkpoint: &PrivateQueryCheckpoint) -> (identity:
    RecentSnapshotIdentity)
    ensures
        identity == identity_of(*checkpoint),
{
    RecentSnapshotIdentity::new(
        checkpoint.network.tag(),
        checkpoint.height,
        checkpoint.block_hash_display,
        checkpoint.schema_version,
        checkpoint.projection_epoch,
        checkpoint.key_epoch,
    )
}

/// A serving identity determines its checkpoint.
pub proof fn identity_determines_checkpoint(
    left: PrivateQueryCheckpoint,
    right: PrivateQueryCheckpoint,
)
    requires
        identity_of(left) == identity_of(right),
    ensures
        left == right,
{
}

/// The identity of a checkpoint names its network by a number of its own and everything
/// else as it is.
pub proof fn identity_names_its_checkpoint(checkpoint: PrivateQueryCheckpoint)
    ensures
        checkpoint.network is Mainnet <==> identity_of(checkpoint).network_tag == 0,
        checkpoint.network is Testnet <==> identity_of(checkpoint).network_tag == 1,
        checkpoint.network is Regtest <==> identity_of(checkpoint).network_tag == 2,
        identity_of(checkpoint).finalized_height == checkpoint.height,
        identity_of(checkpoint).finalized_hash_display == checkpoint.block_hash_display,
        identity_of(checkpoint).schema_version == checkpoint.schema_version,
        identity_of(checkpoint).projection_epoch == checkpoint.projection_epoch,
        identity_of(checkpoint).key_epoch == checkpoint.key_epoch,
        checkpoint_of(identity_of(checkpoint)) == checkpoint,
{
}

} // verus!
