//! Client-side codec over an authenticated, validated bootstrap context.

use crate::bytes::append;
use crate::bytes::arrays_equal;
use crate::private_service::ReleasableSessionKeys;
use crate::private_service::PRIVATE_PROFILE_ID_BYTES;
use crate::profile::CompiledQueryShape;
use crate::profile::PrivacyProfile;
use crate::profile::ProfileMismatch;
use crate::records::PrivateNetwork;
use crate::records::PrivateQueryCheckpoint;
use crate::records::QueryOutcome;
use crate::records::ResultSlot;
use crate::records::TransparentUtxo;
use crate::records::UtxoModel;
use crate::records::UtxoQuery;
use crate::round::ContinuationToken;
use crate::round::InnerCodecError;
use crate::round::PrivateQueryResponse;
use crate::runtime_security::ENVELOPE_NONCE_BYTES;
use crate::secret::PRIVATE_RUNTIME_KEY_BYTES;
use crate::security_owner::OsEntropy;
use crate::security_owner::RoundEntropy;
use crate::security_owner::RoundMaterialUnavailable;
use vstd::prelude::*;

verus! {

/// Version of the bootstrap context that this client understands.
pub const PRIVATE_CLIENT_CONTEXT_VERSION: u16 = 1;

/// Why authenticated bootstrap material could not form or operate a client codec.
#[derive(Debug, Clone, Copy, PartialEq, Eq, Structural)]
pub enum MainnetClientCodecError {
    /// The bootstrap context version, profile, or fixed codec shape was rejected.
    Context,
    /// The address was outside the supported transparent domains.
    Address,
    /// The operating system did not provide a request nonce.
    Entropy,
    /// A request could not be encoded or protected.
    Seal,
    /// A response did not authenticate or decode.
    Open,
}

impl MainnetClientCodecError {
    /// Text shown to a caller; it does not tell the reasons apart.
    pub fn message(&self) -> (text: &'static str)
        ensures
            text@ == "mainnet private client codec refused the operation"@,
    {
        "mainnet private client codec refused the operation"
    }
}

/// One transparent output decoded from an authenticated response.
#[derive(Debug, Clone, PartialEq, Eq)]
pub struct MainnetClientUtxo {
    /// Transaction identifier in internal byte order.
    pub txid: [u8; 32],
    /// Transparent output index.
    pub output_index: u32,
    /// Output value in zatoshis.
    pub value_zat: u64,
    /// Mined block height.
    pub height: u32,
    /// Exact transparent locking script.
    pub script: Vec<u8>,
}

impl View for MainnetClientUtxo {
    type V = UtxoModel;

    open spec fn view(&self) -> UtxoModel {
        UtxoModel {
            txid: self.txid,
            output_index: self.output_index,
            value_zat: self.value_zat,
            height: self.height,
            script: self.script@,
        }
    }
}

impl MainnetClientUtxo {
    /// Takes a record without the padding of its script.
    pub fn from_record(record: &TransparentUtxo) -> (utxo: Self)
        ensures
            utxo@ == record@,
    {
        let (exact, _padding) = record.padded_script().split_at(record.script_len());
        let mut script: Vec<u8> = Vec::new();
        append(&mut script, exact);
        assert(script@ =~= record@.script);
        MainnetClientUtxo {
            txid: *record.txid(),
            output_index: record.output_index(),
            value_zat: record.value_zat(),
            height: record.height(),
            script,
        }
    }
}

/// Protected response outcome visible to a wallet.
#[derive(Debug, Clone, Copy, PartialEq, Eq, Structural)]
pub enum MainnetClientOutcome {
    /// Every matching record fit.
    Complete,
    /// The result budget was exceeded.
    ResultBudgetExceeded,
    /// The address domain was invalid.
    InvalidDomain,
    /// An oblivious store read failed.
    StoreFailure,
    /// The request checkpoint was not the current serving checkpoint.
    ProjectionNotReady,
    /// A continuation was invalid or replayed.
    InvalidContinuation,
}

impl MainnetClientOutcome {
    /// The wallet's name of a page's outcome, where it has one.
    pub open spec fn of_query(outcome: QueryOutcome) -> Option<Self> {
        match outcome {
            QueryOutcome::Complete => Some(Self::Complete),
            QueryOutcome::ResultBudgetExceeded => Some(Self::ResultBudgetExceeded),
            QueryOutcome::InvalidDomain => Some(Self::InvalidDomain),
            QueryOutcome::StoreFailure => Some(Self::StoreFailure),
            QueryOutcome::ProjectionNotReady => Some(Self::ProjectionNotReady),
            QueryOutcome::InvalidContinuation => Some(Self::InvalidContinuation),
            QueryOutcome::Unclassified => None,
        }
    }

    pub fn from_query(outcome: QueryOutcome) -> (mapped: Result<Self, MainnetClientCodecError>)
        ensures
            mapped == match Self::of_query(outcome) {
                Some(outcome) => Ok(outcome),
                None => Err(MainnetClientCodecError::Open),
            },
    {
        match outcome {
            QueryOutcome::Complete => Ok(Self::Complete),
            QueryOutcome::ResultBudgetExceeded => Ok(Self::ResultBudgetExceeded),
            QueryOutcome::InvalidDomain => Ok(Self::InvalidDomain),
            QueryOutcome::StoreFailure => Ok(Self::StoreFailure),
            QueryOutcome::ProjectionNotReady => Ok(Self::ProjectionNotReady),
            QueryOutcome::InvalidContinuation => Ok(Self::InvalidContinuation),
            QueryOutcome::Unclassified => Err(MainnetClientCodecError::Open),
        }
    }
}

/// One decoded authenticated response page.
#[derive(Debug, Clone, PartialEq, Eq)]
pub struct MainnetClientPage {
    /// Protected result classification.
    pub outcome: MainnetClientOutcome,
    /// Occupied UTXO result slots.
    pub utxos: Vec<MainnetClientUtxo>,
    /// Whether the response indicates another page.
    pub has_more: bool,
}

impl MainnetClientPage {
    /// The page's outputs, in their order.
    pub open spec fn outputs(self) -> Seq<UtxoModel> {
        Seq::new(self.utxos@.len(), |i: int| self.utxos@[i]@)
    }
}

/// The outputs of the occupied slots, in their order.
pub open spec fn occupied_outputs(slots: Seq<ResultSlot>) -> Seq<UtxoModel>
    decreases slots.len(),
{
    if slots.len() == 0 {
        Seq::empty()
    } else {
        match slots.last() {
            ResultSlot::Occupied(record) => occupied_outputs(slots.drop_last()).push(record@),
            ResultSlot::Dummy => occupied_outputs(slots.drop_last()),
        }
    }
}

/// What a wallet makes of a decoded response: a page that is complete, of its own
/// checkpoint and of an outcome that it knows, or a refusal.
pub open spec fn opens_to(
    response: PrivateQueryResponse,
    checkpoint: PrivateQueryCheckpoint,
    result: Result<MainnetClientPage, MainnetClientCodecError>,
) -> bool {
    if response.checkpoint == checkpoint && !response.has_more && MainnetClientOutcome::of_query(
        response.page.outcome,
    ) is Some {
        result matches Ok(page) && Some(page.outcome) == MainnetClientOutcome::of_query(
            response.page.outcome,
        ) && page.outputs() == occupied_outputs(response.page.slots@) && !page.has_more
    } else {
        result == Err::<MainnetClientPage, MainnetClientCodecError>(MainnetClientCodecError::Open)
    }
}

/// Collects the occupied slots of a response's page.
fn collect_outputs(slots: &Vec<ResultSlot>) -> (utxos: Vec<MainnetClientUtxo>)
    ensures
        Seq::new(utxos@.len(), |i: int| utxos@[i]@) == occupied_outputs(slots@),
        utxos@.len() == slots@.filter(|slot: ResultSlot| slot is Occupied).len(),
{
    let mut utxos: Vec<MainnetClientUtxo> = Vec::new();
    let mut index: usize = 0;
    assert(Seq::new(utxos@.len(), |i: int| utxos@[i]@) =~= Seq::<UtxoModel>::empty());
    while index < slots.len()
        invariant
            index <= slots@.len(),
            Seq::new(utxos@.len(), |i: int| utxos@[i]@) == occupied_outputs(
                slots@.take(index as int),
            ),
        decreases slots@.len() - index,
    {
        let ghost before = utxos@;
        assert(slots@.take(index + 1).drop_last() =~= slots@.take(index as int));
        assert(slots@.take(index + 1).last() == slots@[index as int]);
        match &slots[index] {
            ResultSlot::Occupied(record) => {
                utxos.push(MainnetClientUtxo::from_record(record));
                assert(Seq::new(utxos@.len(), |i: int| utxos@[i]@) =~= Seq::new(
                    before.len(),
                    |i: int| before[i]@,
                ).push(record@));
            },
            ResultSlot::Dummy => {},
        }
        index = index + 1;
    }
    assert(slots@.take(index as int) =~= slots@);
    proof {
        lemma_one_output_for_each_occupied(slots@);
        assert(Seq::new(utxos@.len(), |i: int| utxos@[i]@).len() == utxos@.len());
    }
    utxos
}

/// Opens one decoded response for a wallet of a checkpoint.
///
/// A response of another checkpoint, one that needs a continuation, and one of an
/// outcome that wallets do not know are refused.
pub fn wallet_page(response: PrivateQueryResponse, checkpoint: &PrivateQueryCheckpoint) -> (result:
    Result<MainnetClientPage, MainnetClientCodecError>)
    ensures
        opens_to(response, *checkpoint, result),
{
    if !response.checkpoint.same(checkpoint) || response.has_more {
        return Err(MainnetClientCodecError::Open);
    }
    let utxos = collect_outputs(&response.page.slots);
    let outcome = match MainnetClientOutcome::from_query(response.page.outcome()) {
        Ok(outcome) => outcome,
        Err(error) => {
            return Err(error);
        },
    };
    let page = MainnetClientPage { outcome, utxos, has_more: response.has_more };
    assert(page.outputs() =~= occupied_outputs(response.page.slots@));
    Ok(page)
}

/// One request, before it is protected.
#[derive(Clone, Copy, PartialEq, Eq)]
pub struct PrivateQueryRequest {
    pub checkpoint: PrivateQueryCheckpoint,
    pub query: UtxoQuery,
    pub continuation: Option<ContinuationToken>,
}

/// Standard transparent locking scripts.
#[derive(Debug, Clone, Copy, PartialEq, Eq, Structural)]
pub enum StandardScriptKind {
    PayToPublicKeyHash,
    PayToScriptHash,
}

/// The kind that a script type byte names.
pub open spec fn kind_of_type(script_type: u8) -> Option<StandardScriptKind> {
    if script_type == 0x00 {
        Some(StandardScriptKind::PayToPublicKeyHash)
    } else if script_type == 0x01 {
        Some(StandardScriptKind::PayToScriptHash)
    } else {
        None
    }
}

pub fn script_kind(script_type: u8) -> (kind: Option<StandardScriptKind>)
    ensures
        kind == kind_of_type(script_type),
{
    if script_type == 0x00 {
        Some(StandardScriptKind::PayToPublicKeyHash)
    } else if script_type == 0x01 {
        Some(StandardScriptKind::PayToScriptHash)
    } else {
        None
    }
}

/// One standard transparent address.
#[derive(Debug, Clone, Copy, PartialEq, Eq)]
pub struct AddrScript {
    pub hash: [u8; 20],
    pub script_type: u8,
}

/// The client's half of the envelope codec, with the two keys a wallet may hold.
pub trait MainnetClientCodec<const RESPONSE_SLOTS: usize, const ENVELOPE_BYTES: usize>: Sized {
    /// The codecs that this context may give.
    open spec fn may_open(
        shape: CompiledQueryShape<RESPONSE_SLOTS, ENVELOPE_BYTES>,
        session_binding: [u8; 32],
        request_key: [u8; PRIVATE_RUNTIME_KEY_BYTES],
        response_key: [u8; PRIVATE_RUNTIME_KEY_BYTES],
        reply: Result<Self, InnerCodecError>,
    ) -> bool {
        true
    }

    /// The directory keys that an address may have.
    open spec fn may_derive_key(
        self,
        network: PrivateNetwork,
        schema_version: u32,
        kind: StandardScriptKind,
        hash: [u8; 20],
        key: [u8; 32],
    ) -> bool {
        true
    }

    /// The replies that an encode may give.
    open spec fn may_encode(
        self,
        request: PrivateQueryRequest,
        nonce: [u8; ENVELOPE_NONCE_BYTES],
        reply: Result<[u8; ENVELOPE_BYTES], InnerCodecError>,
    ) -> bool {
        true
    }

    /// The replies that a decode may give.
    open spec fn may_decode(
        self,
        envelope: [u8; ENVELOPE_BYTES],
        reply: Result<PrivateQueryResponse, InnerCodecError>,
    ) -> bool {
        true
    }

    fn open(
        shape: &CompiledQueryShape<RESPONSE_SLOTS, ENVELOPE_BYTES>,
        session_binding: [u8; 32],
        request_key: &[u8; PRIVATE_RUNTIME_KEY_BYTES],
        response_key: &[u8; PRIVATE_RUNTIME_KEY_BYTES],
    ) -> (reply: Result<Self, InnerCodecError>)
        ensures
            Self::may_open(*shape, session_binding, *request_key, *response_key, reply),
    ;

    fn derive_standard_address_key(
        &self,
        network: PrivateNetwork,
        schema_version: u32,
        kind: StandardScriptKind,
        hash: &[u8; 20],
    ) -> (key: [u8; 32])
        ensures
            self.may_derive_key(network, schema_version, kind, *hash, key),
    ;

    fn encode_request(&self, request: &PrivateQueryRequest, nonce: [u8; ENVELOPE_NONCE_BYTES]) -> (reply:
        Result<[u8; ENVELOPE_BYTES], InnerCodecError>)
        ensures
            self.may_encode(*request, nonce, reply),
    ;

    fn decode_response(&self, envelope: &[u8; ENVELOPE_BYTES]) -> (reply: Result<
        PrivateQueryResponse,
        InnerCodecError,
    >)
        ensures
            self.may_decode(*envelope, reply),
    ;
}

/// One complete bootstrap snapshot, already authenticated by its caller.
pub struct ClientSessionBootstrap {
    pub context_version: u16,
    pub keys: ReleasableSessionKeys,
    pub session_binding: [u8; 32],
    pub profile_id: [u8; PRIVATE_PROFILE_ID_BYTES],
    pub profile_label: &'static str,
    pub network: PrivateNetwork,
    pub serving_finalized_checkpoint_height: u32,
    pub serving_finalized_checkpoint_block_hash_display: [u8; 32],
    pub schema_version: u32,
    pub projection_epoch: u64,
    pub key_epoch: u64,
}

impl ClientSessionBootstrap {
    /// A snapshot of the context version that this client understands.
    pub fn from_authenticated_parts(
        keys: ReleasableSessionKeys,
        session_binding: [u8; 32],
        profile_id: [u8; PRIVATE_PROFILE_ID_BYTES],
        profile_label: &'static str,
        network: PrivateNetwork,
        serving_finalized_checkpoint_height: u32,
        serving_finalized_checkpoint_block_hash_display: [u8; 32],
        schema_version: u32,
        projection_epoch: u64,
        key_epoch: u64,
    ) -> (bootstrap: Self)
        ensures
            bootstrap == (ClientSessionBootstrap {
                context_version: PRIVATE_CLIENT_CONTEXT_VERSION,
                keys,
                session_binding,
                profile_id,
                profile_label,
                network,
                serving_finalized_checkpoint_height,
                serving_finalized_checkpoint_block_hash_display,
                schema_version,
                projection_epoch,
                key_epoch,
            }),
    {
        ClientSessionBootstrap {
            context_version: PRIVATE_CLIENT_CONTEXT_VERSION,
            keys,
            session_binding,
            profile_id,
            profile_label,
            network,
            serving_finalized_checkpoint_height,
            serving_finalized_checkpoint_block_hash_display,
            schema_version,
            projection_epoch,
            key_epoch,
        }
    }

    /// The context is of a known version, names every epoch, and is of a profile of
    /// these widths.
    pub open spec fn is_accepted(
        self,
        profile: Result<PrivacyProfile, ProfileMismatch>,
        response_slots: usize,
        envelope_bytes: usize,
    ) -> bool {
        &&& self.context_version == PRIVATE_CLIENT_CONTEXT_VERSION
        &&& self.schema_version != 0
        &&& self.projection_epoch != 0
        &&& self.key_epoch != 0
        &&& profile matches Ok(profile) && self.profile_id == profile.profile_id
            && profile.response_slots == response_slots && profile.envelope_bytes
            == envelope_bytes
    }

    /// The checkpoint that the snapshot is of.
    pub open spec fn checkpoint(self) -> PrivateQueryCheckpoint {
        PrivateQueryCheckpoint {
            network: self.network,
            height: self.serving_finalized_checkpoint_height,
            block_hash_display: self.serving_finalized_checkpoint_block_hash_display,
            schema_version: self.schema_version,
            projection_epoch: self.projection_epoch,
            key_epoch: self.key_epoch,
        }
    }
}

/// A fixed-profile codec built only from a complete bootstrap snapshot.
pub struct MainnetClientSession<X> {
    pub codec: X,
    pub checkpoint: PrivateQueryCheckpoint,
    pub network: PrivateNetwork,
    pub schema_version: u32,
}

/// How forming a session ends.
pub open spec fn session_ends<
    X: MainnetClientCodec<RESPONSE_SLOTS, ENVELOPE_BYTES>,
    const RESPONSE_SLOTS: usize,
    const ENVELOPE_BYTES: usize,
>(
    bootstrap: ClientSessionBootstrap,
    profile: Result<PrivacyProfile, ProfileMismatch>,
    reply: Result<X, InnerCodecError>,
    result: Result<MainnetClientSession<X>, MainnetClientCodecError>,
) -> bool {
    if bootstrap.is_accepted(profile, RESPONSE_SLOTS, ENVELOPE_BYTES) {
        &&& X::may_open(
            CompiledQueryShape { profile: profile->Ok_0 },
            bootstrap.session_binding,
            bootstrap.keys.request_key,
            bootstrap.keys.response_key,
            reply,
        )
        &&& result == match reply {
            Ok(codec) => Ok(
                (MainnetClientSession {
                    codec,
                    checkpoint: bootstrap.checkpoint(),
                    network: bootstrap.network,
                    schema_version: bootstrap.schema_version,
                }),
            ),
            Err(_) => Err(MainnetClientCodecError::Context),
        }
    } else {
        result == Err::<MainnetClientSession<X>, MainnetClientCodecError>(
            MainnetClientCodecError::Context,
        )
    }
}

/// How sealing one first-page query with a nonce ends.
pub open spec fn seal_ends<
    X: MainnetClientCodec<RESPONSE_SLOTS, ENVELOPE_BYTES>,
    const RESPONSE_SLOTS: usize,
    const ENVELOPE_BYTES: usize,
>(
    session: MainnetClientSession<X>,
    address: AddrScript,
    minimum_height: u32,
    nonce: [u8; ENVELOPE_NONCE_BYTES],
    key: [u8; 32],
    reply: Result<[u8; ENVELOPE_BYTES], InnerCodecError>,
    result: Result<[u8; ENVELOPE_BYTES], MainnetClientCodecError>,
) -> bool {
    match kind_of_type(address.script_type) {
        None => result == Err::<[u8; ENVELOPE_BYTES], MainnetClientCodecError>(
            MainnetClientCodecError::Address,
        ),
        Some(kind) => {
            &&& session.codec.may_derive_key(
                session.network,
                session.schema_version,
                kind,
                address.hash,
                key,
            )
            &&& session.codec.may_encode(
                PrivateQueryRequest {
                    checkpoint: session.checkpoint,
                    query: UtxoQuery { address_key: Some(key), minimum_height },
                    continuation: None,
                },
                nonce,
                reply,
            )
            &&& result == match reply {
                Ok(envelope) => Ok(envelope),
                Err(_) => Err(MainnetClientCodecError::Seal),
            }
        },
    }
}

/// What an entropy source and the codec gave for one sealed query.
pub struct SealDraw<const ENVELOPE_BYTES: usize> {
    pub nonce: [u8; ENVELOPE_NONCE_BYTES],
    pub filled: Result<(), RoundMaterialUnavailable>,
    pub key: [u8; 32],
    pub reply: Result<[u8; ENVELOPE_BYTES], InnerCodecError>,
}

/// How sealing one first-page query ends, for every reply of the entropy source.
///
/// The query is sealed under the nonce that was drawn for it, and under no other.
pub open spec fn query_is_sealed<
    X: MainnetClientCodec<RESPONSE_SLOTS, ENVELOPE_BYTES>,
    E: RoundEntropy,
    const RESPONSE_SLOTS: usize,
    const ENVELOPE_BYTES: usize,
>(
    session: MainnetClientSession<X>,
    address: AddrScript,
    minimum_height: u32,
    before: E,
    draw: SealDraw<ENVELOPE_BYTES>,
    after: E,
    result: Result<[u8; ENVELOPE_BYTES], MainnetClientCodecError>,
) -> bool {
    if kind_of_type(address.script_type) is None {
        after == before && result == Err::<[u8; ENVELOPE_BYTES], MainnetClientCodecError>(
            MainnetClientCodecError::Address,
        )
    } else {
        &&& E::may_fill(before, after, draw.nonce@, draw.filled)
        &&& if draw.filled is Err {
            result == Err::<[u8; ENVELOPE_BYTES], MainnetClientCodecError>(
                MainnetClientCodecError::Entropy,
            )
        } else {
            seal_ends::<X, RESPONSE_SLOTS, ENVELOPE_BYTES>(
                session,
                address,
                minimum_height,
                draw.nonce,
                draw.key,
                draw.reply,
                result,
            )
        }
    }
}

impl<X> MainnetClientSession<X> {
    /// Redacted rendering for logs.
    pub fn debug_text(&self) -> (text: &'static str)
        ensures
            text@ == "MainnetClientSession { ..REDACTED.. }"@,
    {
        "MainnetClientSession { ..REDACTED.. }"
    }

    /// Builds a codec from fixed-width context already authenticated by the caller.
    ///
    /// The caller has authenticated its peer and accepted the peer's evidence.
    /// Here only the format and the profile are validated.
    pub fn try_from_authenticated_context<const RESPONSE_SLOTS: usize, const ENVELOPE_BYTES: usize>(
        keys: ReleasableSessionKeys,
        session_binding: [u8; 32],
        profile_id: [u8; PRIVATE_PROFILE_ID_BYTES],
        network: PrivateNetwork,
        serving_finalized_checkpoint_height: u32,
        serving_finalized_checkpoint_block_hash_display: [u8; 32],
        schema_version: u32,
        projection_epoch: u64,
        key_epoch: u64,
        profile: Result<PrivacyProfile, ProfileMismatch>,
    ) -> (result: Result<Self, MainnetClientCodecError>) where
        X: MainnetClientCodec<RESPONSE_SLOTS, ENVELOPE_BYTES>,

        ensures
            exists|bootstrap: ClientSessionBootstrap, reply: Result<X, InnerCodecError>| #[trigger]
                session_ends::<X, RESPONSE_SLOTS, ENVELOPE_BYTES>(bootstrap, profile, reply, result)
                    && bootstrap.context_version == PRIVATE_CLIENT_CONTEXT_VERSION
                    && bootstrap.keys == keys && bootstrap.session_binding == session_binding
                    && bootstrap.profile_id == profile_id && bootstrap.checkpoint() == (
                PrivateQueryCheckpoint {
                    network,
                    height: serving_finalized_checkpoint_height,
                    block_hash_display: serving_finalized_checkpoint_block_hash_display,
                    schema_version,
                    projection_epoch,
                    key_epoch,
                }),
    {
        let bootstrap = ClientSessionBootstrap::from_authenticated_parts(
            keys,
            session_binding,
            profile_id,
            "authenticated-client-context",
            network,
            serving_finalized_checkpoint_height,
            serving_finalized_checkpoint_block_hash_display,
            schema_version,
            projection_epoch,
            key_epoch,
        );
        Self::try_from_authenticated_bootstrap::<RESPONSE_SLOTS, ENVELOPE_BYTES>(
            &bootstrap,
            profile,
        )
    }

    /// Builds a codec from bootstrap material already authenticated by the caller.
    pub fn try_from_authenticated_bootstrap<
        const RESPONSE_SLOTS: usize,
        const ENVELOPE_BYTES: usize,
    >(
        bootstrap: &ClientSessionBootstrap,
        profile: Result<PrivacyProfile, ProfileMismatch>,
    ) -> (result: Result<Self, MainnetClientCodecError>) where
        X: MainnetClientCodec<RESPONSE_SLOTS, ENVELOPE_BYTES>,

        ensures
            exists|reply: Result<X, InnerCodecError>| #[trigger]
                session_ends::<X, RESPONSE_SLOTS, ENVELOPE_BYTES>(
                    *bootstrap,
                    profile,
                    reply,
                    result,
                ),
    {
        let accepted = bootstrap.context_version == PRIVATE_CLIENT_CONTEXT_VERSION
            && bootstrap.schema_version != 0 && bootstrap.projection_epoch != 0
            && bootstrap.key_epoch != 0;
        let compiled = match &profile {
            Ok(compiled) => if accepted && arrays_equal(
                &bootstrap.profile_id,
                compiled.profile_id(),
            ) {
                CompiledQueryShape::<RESPONSE_SLOTS, ENVELOPE_BYTES>::new(*compiled).ok()
            } else {
                None
            },
            Err(_) => None,
        };
        let compiled = match compiled {
            Some(compiled) => compiled,
            None => {
                assert(session_ends::<X, RESPONSE_SLOTS, ENVELOPE_BYTES>(
                    *bootstrap,
                    profile,
                    Err(InnerCodecError::InvalidShape),
                    Err(MainnetClientCodecError::Context),
                ));
                return Err(MainnetClientCodecError::Context);
            },
        };
        let opened = X::open(
            &compiled,
            bootstrap.session_binding,
            &bootstrap.keys.request_key,
            &bootstrap.keys.response_key,
        );
        let ghost reply = opened;
        let codec = match opened {
            Ok(codec) => codec,
            Err(_) => {
                assert(session_ends::<X, RESPONSE_SLOTS, ENVELOPE_BYTES>(
                    *bootstrap,
                    profile,
                    reply,
                    Err(MainnetClientCodecError::Context),
                ));
                return Err(MainnetClientCodecError::Context);
            },
        };
        let checkpoint = PrivateQueryCheckpoint::new(
            bootstrap.network,
            bootstrap.serving_finalized_checkpoint_height,
            bootstrap.serving_finalized_checkpoint_block_hash_display,
            bootstrap.schema_version,
            bootstrap.projection_epoch,
            bootstrap.key_epoch,
        );
        let session = MainnetClientSession {
            codec,
            checkpoint,
            network: bootstrap.network,
            schema_version: bootstrap.schema_version,
        };
        assert(session_ends::<X, RESPONSE_SLOTS, ENVELOPE_BYTES>(
            *bootstrap,
            profile,
            reply,
            Ok(session),
        ));
        Ok(session)
    }

    /// Seals one first-page standard-address query under a given nonce.
    pub fn seal_query_with_nonce<const RESPONSE_SLOTS: usize, const ENVELOPE_BYTES: usize>(
        &self,
        address: &AddrScript,
        minimum_height: u32,
        nonce: [u8; ENVELOPE_NONCE_BYTES],
    ) -> (result: Result<[u8; ENVELOPE_BYTES], MainnetClientCodecError>) where
        X: MainnetClientCodec<RESPONSE_SLOTS, ENVELOPE_BYTES>,

        ensures
            exists|key: [u8; 32], reply: Result<[u8; ENVELOPE_BYTES], InnerCodecError>| #[trigger]
                seal_ends::<X, RESPONSE_SLOTS, ENVELOPE_BYTES>(
                    *self,
                    *address,
                    minimum_height,
                    nonce,
                    key,
                    reply,
                    result,
                ),
    {
        let kind = match script_kind(address.script_type) {
            Some(kind) => kind,
            None => {
                assert(seal_ends::<X, RESPONSE_SLOTS, ENVELOPE_BYTES>(
                    *self,
                    *address,
                    minimum_height,
                    nonce,
                    arbitrary(),
                    Err(InnerCodecError::InvalidShape),
                    Err(MainnetClientCodecError::Address),
                ));
                return Err(MainnetClientCodecError::Address);
            },
        };
        let key = self.codec.derive_standard_address_key(
            self.network,
            self.schema_version,
            kind,
            &address.hash,
        );
        let request = PrivateQueryRequest {
            checkpoint: self.checkpoint,
            query: UtxoQuery::new(key, minimum_height),
            continuation: None,
        };
        let reply = self.codec.encode_request(&request, nonce);
        let result = match reply {
            Ok(envelope) => Ok(envelope),
            Err(_) => Err(MainnetClientCodecError::Seal),
        };
        assert(seal_ends::<X, RESPONSE_SLOTS, ENVELOPE_BYTES>(
            *self,
            *address,
            minimum_height,
            nonce,
            key,
            reply,
            result,
        ));
        result
    }

    /// Seals one first-page standard-address query under a nonce of an entropy source.
    ///
    /// An address outside the supported domains is refused before a nonce is drawn.
    pub fn seal_query_from<
        E: RoundEntropy,
        const RESPONSE_SLOTS: usize,
        const ENVELOPE_BYTES: usize,
    >(&self, address: &AddrScript, minimum_height: u32, entropy: &mut E) -> (result: Result<
        [u8; ENVELOPE_BYTES],
        MainnetClientCodecError,
    >) where X: MainnetClientCodec<RESPONSE_SLOTS, ENVELOPE_BYTES>,

        ensures
            exists|draw: SealDraw<ENVELOPE_BYTES>| #[trigger]
                query_is_sealed::<X, E, RESPONSE_SLOTS, ENVELOPE_BYTES>(
                    *self,
                    *address,
                    minimum_height,
                    *old(entropy),
                    draw,
                    *final(entropy),
                    result,
                ),
    {
        let ghost before = *entropy;
        let ghost mut draw: SealDraw<ENVELOPE_BYTES> = arbitrary();
        match script_kind(address.script_type) {
            Some(_) => {},
            None => {
                assert(query_is_sealed::<X, E, RESPONSE_SLOTS, ENVELOPE_BYTES>(
                    *self,
                    *address,
                    minimum_height,
                    before,
                    draw,
                    *entropy,
                    Err(MainnetClientCodecError::Address),
                ));
                return Err(MainnetClientCodecError::Address);
            },
        }
        let mut nonce: [u8; ENVELOPE_NONCE_BYTES] = [0u8; ENVELOPE_NONCE_BYTES];
        let filled = entropy.fill(&mut nonce);
        proof {
            draw = SealDraw { nonce, filled, ..draw };
        }
        match filled {
            Ok(()) => {},
            Err(_) => {
                assert(query_is_sealed::<X, E, RESPONSE_SLOTS, ENVELOPE_BYTES>(
                    *self,
                    *address,
                    minimum_height,
                    before,
                    draw,
                    *entropy,
                    Err(MainnetClientCodecError::Entropy),
                ));
                return Err(MainnetClientCodecError::Entropy);
            },
        }
        let result = self.seal_query_with_nonce(address, minimum_height, nonce);
        proof {
            let (key, reply) = choose|
                key: [u8; 32],
                reply: Result<[u8; ENVELOPE_BYTES], InnerCodecError>,
            | #[trigger]
                seal_ends::<X, RESPONSE_SLOTS, ENVELOPE_BYTES>(
                    *self,
                    *address,
                    minimum_height,
                    nonce,
                    key,
                    reply,
                    result,
                );
            draw = SealDraw { key, reply, ..draw };
            assert(query_is_sealed::<X, E, RESPONSE_SLOTS, ENVELOPE_BYTES>(
                *self,
                *address,
                minimum_height,
                before,
                draw,
                *entropy,
                result,
            ));
        }
        result
    }

    /// Seals one first-page standard-address query under a fresh nonce of the operating
    /// system.
    pub fn seal_query<const RESPONSE_SLOTS: usize, const ENVELOPE_BYTES: usize>(
        &self,
        address: &AddrScript,
        minimum_height: u32,
    ) -> (result: Result<[u8; ENVELOPE_BYTES], MainnetClientCodecError>) where
        X: MainnetClientCodec<RESPONSE_SLOTS, ENVELOPE_BYTES>,

        ensures
            exists|draw: SealDraw<ENVELOPE_BYTES>, after: OsEntropy| #[trigger]
                query_is_sealed::<X, OsEntropy, RESPONSE_SLOTS, ENVELOPE_BYTES>(
                    *self,
                    *address,
                    minimum_height,
                    OsEntropy,
                    draw,
                    after,
                    result,
                ),
    {
        let mut entropy = OsEntropy;
        self.seal_query_from(address, minimum_height, &mut entropy)
    }

    /// Authenticates one response and refuses pages that require continuation.
    pub fn open_single_page_response<const RESPONSE_SLOTS: usize, const ENVELOPE_BYTES: usize>(
        &self,
        envelope: [u8; ENVELOPE_BYTES],
    ) -> (result: Result<MainnetClientPage, MainnetClientCodecError>) where
        X: MainnetClientCodec<RESPONSE_SLOTS, ENVELOPE_BYTES>,

        ensures
            exists|reply: Result<PrivateQueryResponse, InnerCodecError>| #[trigger]
                self.codec.may_decode(envelope, reply) && match reply {
                    Ok(response) => opens_to(response, self.checkpoint, result),
                    Err(_) => result == Err::<MainnetClientPage, MainnetClientCodecError>(
                        MainnetClientCodecError::Open,
                    ),
                },
    {
        let decoded = self.codec.decode_response(&envelope);
        let ghost reply = decoded;
        assert(self.codec.may_decode(envelope, reply));
        match decoded {
            Ok(response) => wallet_page(response, &self.checkpoint),
            Err(_) => Err(MainnetClientCodecError::Open),
        }
    }
}

/// A page that a wallet accepts is of the checkpoint it asked for, needs no
/// continuation, and shows no output of a masked response.
pub proof fn accepted_page_is_of_the_checkpoint(
    response: PrivateQueryResponse,
    checkpoint: PrivateQueryCheckpoint,
    page: MainnetClientPage,
)
    requires
        opens_to(response, checkpoint, Ok(page)),
    ensures
        response.checkpoint == checkpoint,
        !response.has_more,
        response.page.all_dummy() ==> page.outputs().len() == 0,
{
    if response.page.all_dummy() {
        lemma_dummies_hold_nothing(response.page.slots@);
    }
}

/// A wallet accepts a response exactly where it is of the checkpoint that was asked for,
/// is the whole answer, and is of an outcome that wallets know. The page's outcome is the
/// response's, name for name; every other response is refused alike.
pub proof fn acceptance_is_decided_by_the_response(
    response: PrivateQueryResponse,
    checkpoint: PrivateQueryCheckpoint,
    result: Result<MainnetClientPage, MainnetClientCodecError>,
)
    requires
        opens_to(response, checkpoint, result),
    ensures
        result is Ok <==> response.checkpoint == checkpoint && !response.has_more && !(
        response.page.outcome is Unclassified),
        result matches Err(error) ==> error is Open,
        result matches Ok(page) ==> !page.has_more,
        result matches Ok(page) ==> {
            &&& page.outcome is Complete <==> response.page.outcome is Complete
            &&& page.outcome is ResultBudgetExceeded
                <==> response.page.outcome is ResultBudgetExceeded
            &&& page.outcome is InvalidDomain <==> response.page.outcome is InvalidDomain
            &&& page.outcome is StoreFailure <==> response.page.outcome is StoreFailure
            &&& page.outcome is ProjectionNotReady <==> response.page.outcome is ProjectionNotReady
            &&& page.outcome is InvalidContinuation
                <==> response.page.outcome is InvalidContinuation
        },
{
}

/// An accepted page lists one output for each occupied slot and no other: as many as there
/// are occupied slots, and that of an occupied slot stands at its rank among them, with the
/// slot's transaction, index, value, height and script.
pub proof fn accepted_page_lists_every_occupied_slot(
    response: PrivateQueryResponse,
    checkpoint: PrivateQueryCheckpoint,
    page: MainnetClientPage,
)
    requires
        opens_to(response, checkpoint, Ok(page)),
    ensures
        page.utxos@.len() == response.page.slots@.filter(
            |slot: ResultSlot| slot is Occupied,
        ).len(),
        forall|i: int|
            0 <= i < response.page.slots@.len() && (#[trigger] response.page.slots@[i]) is Occupied
                ==> {
                let rank = response.page.slots@.take(i).filter(
                    |slot: ResultSlot| slot is Occupied,
                ).len() as int;
                let record = response.page.slots@[i]->Occupied_0@;
                &&& rank < page.utxos@.len()
                &&& page.utxos@[rank].txid == record.txid
                &&& page.utxos@[rank].output_index == record.output_index
                &&& page.utxos@[rank].value_zat == record.value_zat
                &&& page.utxos@[rank].height == record.height
                &&& page.utxos@[rank].script@ == record.script
            },
{
    let slots = response.page.slots@;
    lemma_one_output_for_each_occupied(slots);
    assert(page.outputs().len() == page.utxos@.len());
    assert forall|i: int| 0 <= i < slots.len() && (#[trigger] slots[i]) is Occupied implies {
        let rank = slots.take(i).filter(|slot: ResultSlot| slot is Occupied).len() as int;
        let record = slots[i]->Occupied_0@;
        &&& rank < page.utxos@.len()
        &&& page.utxos@[rank].txid == record.txid
        &&& page.utxos@[rank].output_index == record.output_index
        &&& page.utxos@[rank].value_zat == record.value_zat
        &&& page.utxos@[rank].height == record.height
        &&& page.utxos@[rank].script@ == record.script
    } by {
        let rank = slots.take(i).filter(|slot: ResultSlot| slot is Occupied).len() as int;
        lemma_output_stands_at_its_rank(slots, i);
        assert(page.outputs()[rank] == page.utxos@[rank]@);
    }
}

proof fn lemma_one_output_for_each_occupied(slots: Seq<ResultSlot>)
    ensures
        occupied_outputs(slots).len() == slots.filter(|slot: ResultSlot| slot is Occupied).len(),
    decreases slots.len(),
{
    reveal(Seq::filter);
    if slots.len() > 0 {
        lemma_one_output_for_each_occupied(slots.drop_last());
    }
}

proof fn lemma_output_stands_at_its_rank(slots: Seq<ResultSlot>, i: int)
    requires
        0 <= i < slots.len(),
        slots[i] is Occupied,
    ensures
        slots.take(i).filter(|slot: ResultSlot| slot is Occupied).len() < occupied_outputs(
            slots,
        ).len(),
        occupied_outputs(slots)[slots.take(i).filter(
            |slot: ResultSlot| slot is Occupied,
        ).len() as int] == slots[i]->Occupied_0@,
    decreases slots.len(),
{
    let before = slots.drop_last();
    if i < before.len() {
        assert(before.take(i) =~= slots.take(i));
        lemma_output_stands_at_its_rank(before, i);
    } else {
        assert(slots.take(i) =~= before);
        lemma_one_output_for_each_occupied(before);
    }
}

/// A sealed query is the caller's. For a codec whose envelopes tell which request and nonce
/// they were made of, the request is of the session's checkpoint, asks for outputs from the
/// given height on, starts a new query, and names the address by a key that was derived for
/// its own script kind and hash in the session's network and schema.
pub proof fn sealed_query_is_the_callers<
    X: MainnetClientCodec<RESPONSE_SLOTS, ENVELOPE_BYTES>,
    const RESPONSE_SLOTS: usize,
    const ENVELOPE_BYTES: usize,
>(
    session: MainnetClientSession<X>,
    address: AddrScript,
    minimum_height: u32,
    nonce: [u8; ENVELOPE_NONCE_BYTES],
    key: [u8; 32],
    reply: Result<[u8; ENVELOPE_BYTES], InnerCodecError>,
    envelope: [u8; ENVELOPE_BYTES],
    request_of: spec_fn([u8; ENVELOPE_BYTES]) -> PrivateQueryRequest,
    nonce_of: spec_fn([u8; ENVELOPE_BYTES]) -> [u8; ENVELOPE_NONCE_BYTES],
)
    requires
        seal_ends::<X, RESPONSE_SLOTS, ENVELOPE_BYTES>(
            session,
            address,
            minimum_height,
            nonce,
            key,
            reply,
            Ok(envelope),
        ),
        forall|
            request: PrivateQueryRequest,
            nonce: [u8; ENVELOPE_NONCE_BYTES],
            made: [u8; ENVELOPE_BYTES],
        | #[trigger]
            session.codec.may_encode(request, nonce, Ok(made)) ==> request_of(made) == request
                && nonce_of(made) == nonce,
    ensures
        request_of(envelope).query.minimum_height == minimum_height,
        request_of(envelope).query.address_key == Some(key),
        request_of(envelope).checkpoint == session.checkpoint,
        request_of(envelope).continuation is None,
        nonce_of(envelope) == nonce,
        address.script_type == 0x00 || address.script_type == 0x01,
        address.script_type == 0x00 ==> session.codec.may_derive_key(
            session.network,
            session.schema_version,
            StandardScriptKind::PayToPublicKeyHash,
            address.hash,
            key,
        ),
        address.script_type == 0x01 ==> session.codec.may_derive_key(
            session.network,
            session.schema_version,
            StandardScriptKind::PayToScriptHash,
            address.hash,
            key,
        ),
{
}

/// A query is refused for its address exactly where the script type is neither of the two
/// standard ones, and otherwise exactly where the codec refuses to encode it.
pub proof fn sealing_refuses_only_what_it_must<
    X: MainnetClientCodec<RESPONSE_SLOTS, ENVELOPE_BYTES>,
    const RESPONSE_SLOTS: usize,
    const ENVELOPE_BYTES: usize,
>(
    session: MainnetClientSession<X>,
    address: AddrScript,
    minimum_height: u32,
    nonce: [u8; ENVELOPE_NONCE_BYTES],
    key: [u8; 32],
    reply: Result<[u8; ENVELOPE_BYTES], InnerCodecError>,
    result: Result<[u8; ENVELOPE_BYTES], MainnetClientCodecError>,
)
    requires
        seal_ends::<X, RESPONSE_SLOTS, ENVELOPE_BYTES>(
            session,
            address,
            minimum_height,
            nonce,
            key,
            reply,
            result,
        ),
    ensures
        (result matches Err(error) && error is Address) <==> address.script_type > 0x01,
        address.script_type <= 0x01 ==> {
            &&& reply is Err ==> (result matches Err(error) && error is Seal)
            &&& reply matches Ok(made) ==> (result matches Ok(envelope) && envelope == made)
            &&& exists|request: PrivateQueryRequest| #[trigger]
                session.codec.may_encode(request, nonce, reply)
        },
{
}

/// A query is sealed under the nonce that the entropy source gave for it, which is drawn
/// for a supported address alone; a source that fails stops the query.
pub proof fn sealed_query_uses_the_drawn_nonce<
    X: MainnetClientCodec<RESPONSE_SLOTS, ENVELOPE_BYTES>,
    E: RoundEntropy,
    const RESPONSE_SLOTS: usize,
    const ENVELOPE_BYTES: usize,
>(
    session: MainnetClientSession<X>,
    address: AddrScript,
    minimum_height: u32,
    before: E,
    draw: SealDraw<ENVELOPE_BYTES>,
    after: E,
    result: Result<[u8; ENVELOPE_BYTES], MainnetClientCodecError>,
    request_of: spec_fn([u8; ENVELOPE_BYTES]) -> PrivateQueryRequest,
    nonce_of: spec_fn([u8; ENVELOPE_BYTES]) -> [u8; ENVELOPE_NONCE_BYTES],
)
    requires
        query_is_sealed::<X, E, RESPONSE_SLOTS, ENVELOPE_BYTES>(
            session,
            address,
            minimum_height,
            before,
            draw,
            after,
            result,
        ),
        forall|
            request: PrivateQueryRequest,
            nonce: [u8; ENVELOPE_NONCE_BYTES],
            made: [u8; ENVELOPE_BYTES],
        | #[trigger]
            session.codec.may_encode(request, nonce, Ok(made)) ==> request_of(made) == request
                && nonce_of(made) == nonce,
    ensures
        (result matches Err(error) && error is Address) <==> address.script_type > 0x01,
        address.script_type > 0x01 ==> after == before,
        address.script_type <= 0x01 ==> {
            &&& E::may_fill(before, after, draw.nonce@, draw.filled)
            &&& (result matches Err(error) && error is Entropy) <==> draw.filled is Err
        },
        address.script_type <= 0x01 && draw.filled is Ok ==> (result is Ok <==> draw.reply is Ok),
        result matches Ok(envelope) ==> {
            &&& nonce_of(envelope) == draw.nonce
            &&& request_of(envelope).query.minimum_height == minimum_height
            &&& request_of(envelope).query.address_key == Some(draw.key)
            &&& request_of(envelope).checkpoint == session.checkpoint
            &&& request_of(envelope).continuation is None
        },
        result matches Ok(envelope) && address.script_type == 0x00 ==> session.codec.may_derive_key(
            session.network,
            session.schema_version,
            StandardScriptKind::PayToPublicKeyHash,
            address.hash,
            draw.key,
        ),
        result matches Ok(envelope) && address.script_type == 0x01 ==> session.codec.may_derive_key(
            session.network,
            session.schema_version,
            StandardScriptKind::PayToScriptHash,
            address.hash,
            draw.key,
        ),
{
}

/// A session is formed exactly where the context is of the known version, names its schema
/// and both epochs, is of the compiled profile at these widths, and the codec opens; it is
/// of the context's network, schema and checkpoint, and its codec was opened with the
/// context's binding and the two keys in their places.
pub proof fn session_is_of_its_context<
    X: MainnetClientCodec<RESPONSE_SLOTS, ENVELOPE_BYTES>,
    const RESPONSE_SLOTS: usize,
    const ENVELOPE_BYTES: usize,
>(
    bootstrap: ClientSessionBootstrap,
    profile: Result<PrivacyProfile, ProfileMismatch>,
    reply: Result<X, InnerCodecError>,
    result: Result<MainnetClientSession<X>, MainnetClientCodecError>,
)
    requires
        session_ends::<X, RESPONSE_SLOTS, ENVELOPE_BYTES>(bootstrap, profile, reply, result),
    ensures
        result matches Err(error) ==> error is Context,
        result is Ok ==> reply is Ok && profile is Ok,
        result is Ok ==> bootstrap.context_version == 1 && bootstrap.schema_version > 0
            && bootstrap.projection_epoch > 0 && bootstrap.key_epoch > 0,
        result is Ok ==> bootstrap.profile_id == profile->Ok_0.profile_id
            && profile->Ok_0.response_slots == RESPONSE_SLOTS && profile->Ok_0.envelope_bytes
            == ENVELOPE_BYTES,
        reply is Ok && profile is Ok && bootstrap.context_version == 1 && bootstrap.schema_version
            > 0 && bootstrap.projection_epoch > 0 && bootstrap.key_epoch > 0
            && bootstrap.profile_id == profile->Ok_0.profile_id && profile->Ok_0.response_slots
            == RESPONSE_SLOTS && profile->Ok_0.envelope_bytes == ENVELOPE_BYTES ==> result is Ok,
        result matches Ok(session) ==> {
            &&& session.codec == reply->Ok_0
            &&& session.network == bootstrap.network
            &&& session.schema_version == bootstrap.schema_version
            &&& session.checkpoint.network == bootstrap.network
            &&& session.checkpoint.height == bootstrap.serving_finalized_checkpoint_height
            &&& session.checkpoint.block_hash_display
                == bootstrap.serving_finalized_checkpoint_block_hash_display
            &&& session.checkpoint.schema_version == bootstrap.schema_version
            &&& session.checkpoint.projection_epoch == bootstrap.projection_epoch
            &&& session.checkpoint.key_epoch == bootstrap.key_epoch
        },
        result is Ok ==> exists|shape: CompiledQueryShape<RESPONSE_SLOTS, ENVELOPE_BYTES>|
            shape.profile == profile->Ok_0 && #[trigger] X::may_open(
                shape,
                bootstrap.session_binding,
                bootstrap.keys.request_key,
                bootstrap.keys.response_key,
                reply,
            ),
{
    if result is Ok {
        let shape: CompiledQueryShape<RESPONSE_SLOTS, ENVELOPE_BYTES> = CompiledQueryShape {
            profile: profile->Ok_0,
        };
        assert(X::may_open(
            shape,
            bootstrap.session_binding,
            bootstrap.keys.request_key,
            bootstrap.keys.response_key,
            reply,
        ));
    }
}

proof fn lemma_dummies_hold_nothing(slots: Seq<ResultSlot>)
    requires
        forall|i: int| 0 <= i < slots.len() ==> slots[i] is Dummy,
    ensures
        occupied_outputs(slots).len() == 0,
    decreases slots.len(),
{
    if slots.len() > 0 {
        lemma_dummies_hold_nothing(slots.drop_last());
    }
}

} // verus!
