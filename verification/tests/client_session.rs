use zaino_oram::client_session::script_kind;
use zaino_oram::client_session::wallet_page;
use zaino_oram::client_session::AddrScript;
use zaino_oram::client_session::ClientSessionBootstrap;
use zaino_oram::client_session::MainnetClientCodec;
use zaino_oram::client_session::MainnetClientCodecError;
use zaino_oram::client_session::MainnetClientOutcome;
use zaino_oram::client_session::MainnetClientSession;
use zaino_oram::client_session::MainnetClientUtxo;
use zaino_oram::client_session::PrivateQueryRequest;
use zaino_oram::client_session::StandardScriptKind;
use zaino_oram::client_session::PRIVATE_CLIENT_CONTEXT_VERSION;
use zaino_oram::private_service::ReleasableSessionKeys;
use zaino_oram::profile::CompiledQueryShape;
use zaino_oram::profile::CompiledReplayPolicy;
use zaino_oram::profile::PrivacyProfile;
use zaino_oram::profile::ProfileMismatch;
use zaino_oram::records::PrivateNetwork;
use zaino_oram::records::PrivateQueryCheckpoint;
use zaino_oram::records::QueryOutcome;
use zaino_oram::records::ResultSlot;
use zaino_oram::records::TransparentUtxo;
use zaino_oram::records::UtxoResultPage;
use zaino_oram::round::ContinuationToken;
use zaino_oram::round::InnerCodecError;
use zaino_oram::round::PrivateQueryResponse;
use zaino_oram::round::CONTINUATION_TOKEN_BYTES;
use zaino_oram::security_owner::RoundEntropy;
use zaino_oram::security_owner::RoundMaterialUnavailable;

const SLOTS: usize = 3;
const ENVELOPE_BYTES: usize = 64;
const REFUSED_HASH: [u8; 20] = [0xee; 20];
const HASH_DISPLAY: [u8; 32] = [0x42; 32];

fn profile() -> PrivacyProfile {
    PrivacyProfile {
        profile_id: [0x6d; 16],
        store_reads: 24,
        recent_snapshot_slots: SLOTS,
        response_slots: SLOTS,
        envelope_bytes: ENVELOPE_BYTES,
        continuation_ttl_seconds: 60,
        timeout_bucket_millis: 250,
        replay_policy: CompiledReplayPolicy {
            transaction_capacity: 1024,
            expiry_bucket_width_seconds: 60,
            garbage_collection_interval_seconds: 300,
        },
    }
}

/// Writes out what it is asked to encode; opens what its first byte names.
struct PlainCodec {
    response_key: [u8; 32],
}

fn checkpoint() -> PrivateQueryCheckpoint {
    PrivateQueryCheckpoint::new(PrivateNetwork::Testnet, 700, HASH_DISPLAY, 3, 11, 42)
}

fn record(index: u32, script: &[u8]) -> TransparentUtxo {
    TransparentUtxo::new([index as u8; 32], index, 1_000 + u64::from(index), 600, script, 25)
        .unwrap()
}

fn response(first: u8) -> PrivateQueryResponse {
    let mut page = UtxoResultPage::empty(SLOTS);
    page.slots = vec![
        ResultSlot::Occupied(record(1, &[0x76, 0xa9])),
        ResultSlot::Dummy,
        ResultSlot::Occupied(record(2, &[0xa9; 25])),
    ];
    page.set_outcome(match first {
        5 => QueryOutcome::Unclassified,
        _ => QueryOutcome::Complete,
    });
    let mut checkpoint = checkpoint();
    if first == 3 {
        checkpoint.height += 1;
    }
    let more = first == 4;
    let continuation = if more {
        Some(ContinuationToken::from_opaque_bytes([9; CONTINUATION_TOKEN_BYTES]))
    } else {
        None
    };
    PrivateQueryResponse::new(checkpoint, page, more, continuation)
        .ok()
        .unwrap()
}

impl MainnetClientCodec<SLOTS, ENVELOPE_BYTES> for PlainCodec {
    fn open(
        shape: &CompiledQueryShape<SLOTS, ENVELOPE_BYTES>,
        session_binding: [u8; 32],
        request_key: &[u8; 32],
        response_key: &[u8; 32],
    ) -> Result<Self, InnerCodecError> {
        assert_eq!(shape.profile(), &profile());
        assert_eq!(request_key, &[0x11; 32]);
        if session_binding == [0; 32] {
            return Err(InnerCodecError::InvalidShape);
        }
        Ok(PlainCodec {
            response_key: *response_key,
        })
    }

    fn derive_standard_address_key(
        &self,
        network: PrivateNetwork,
        schema_version: u32,
        kind: StandardScriptKind,
        hash: &[u8; 20],
    ) -> [u8; 32] {
        let mut key = [0; 32];
        key[0] = network.tag();
        key[1] = schema_version as u8;
        key[2] = match kind {
            StandardScriptKind::PayToPublicKeyHash => 1,
            StandardScriptKind::PayToScriptHash => 2,
        };
        key[12..].copy_from_slice(hash);
        key
    }

    fn encode_request(
        &self,
        request: &PrivateQueryRequest,
        nonce: [u8; 24],
    ) -> Result<[u8; ENVELOPE_BYTES], InnerCodecError> {
        let key = request.query.address_key.unwrap();
        if key[12..] == REFUSED_HASH {
            return Err(InnerCodecError::ProtectionUnavailable);
        }
        assert!(request.continuation.is_none());
        assert!(request.checkpoint.same(&checkpoint()));
        let mut envelope = [0; ENVELOPE_BYTES];
        envelope[..32].copy_from_slice(&key);
        envelope[32..56].copy_from_slice(&nonce);
        envelope[56..60].copy_from_slice(&request.query.minimum_height.to_be_bytes());
        Ok(envelope)
    }

    fn decode_response(
        &self,
        envelope: &[u8; ENVELOPE_BYTES],
    ) -> Result<PrivateQueryResponse, InnerCodecError> {
        if envelope[1..33] != self.response_key || envelope[0] == 0 {
            return Err(InnerCodecError::AuthenticationFailed);
        }
        Ok(response(envelope[0]))
    }
}

fn keys() -> ReleasableSessionKeys {
    ReleasableSessionKeys {
        request_key: [0x11; 32],
        response_key: [0x22; 32],
    }
}

fn bootstrap() -> ClientSessionBootstrap {
    ClientSessionBootstrap::from_authenticated_parts(
        keys(),
        [0x5e; 32],
        [0x6d; 16],
        "utxo-history",
        PrivateNetwork::Testnet,
        700,
        HASH_DISPLAY,
        3,
        11,
        42,
    )
}

type Session = MainnetClientSession<PlainCodec>;

fn session_over(
    bootstrap: &ClientSessionBootstrap,
    profile: Result<PrivacyProfile, ProfileMismatch>,
) -> Result<Session, MainnetClientCodecError> {
    Session::try_from_authenticated_bootstrap::<SLOTS, ENVELOPE_BYTES>(bootstrap, profile)
}

fn session() -> Session {
    session_over(&bootstrap(), Ok(profile())).ok().unwrap()
}

fn p2pkh() -> AddrScript {
    AddrScript {
        hash: [0x77; 20],
        script_type: 0x00,
    }
}

#[test]
fn a_session_is_of_the_bootstrap_it_was_built_from() {
    let session = session();
    assert!(session.checkpoint.same(&checkpoint()));
    assert!(session.network == PrivateNetwork::Testnet);
    assert_eq!(session.schema_version, 3);
    assert_eq!(session.codec.response_key, [0x22; 32]);
    assert_eq!(session.debug_text(), "MainnetClientSession { ..REDACTED.. }");

    let from_context = Session::try_from_authenticated_context::<SLOTS, ENVELOPE_BYTES>(
        keys(),
        [0x5e; 32],
        [0x6d; 16],
        PrivateNetwork::Testnet,
        700,
        HASH_DISPLAY,
        3,
        11,
        42,
        Ok(profile()),
    )
    .ok()
    .unwrap();
    assert!(from_context.checkpoint.same(&session.checkpoint));
}

#[test]
fn each_malformed_context_is_refused() {
    let refused = |mutate: fn(&mut ClientSessionBootstrap)| {
        let mut bootstrap = bootstrap();
        mutate(&mut bootstrap);
        session_over(&bootstrap, Ok(profile())).err() == Some(MainnetClientCodecError::Context)
    };
    assert!(refused(|bootstrap| bootstrap.context_version =
        PRIVATE_CLIENT_CONTEXT_VERSION + 1));
    assert!(refused(|bootstrap| bootstrap.schema_version = 0));
    assert!(refused(|bootstrap| bootstrap.projection_epoch = 0));
    assert!(refused(|bootstrap| bootstrap.key_epoch = 0));
    assert!(refused(|bootstrap| bootstrap.profile_id[0] ^= 1));
    // The codec itself refuses this binding.
    assert!(refused(|bootstrap| bootstrap.session_binding = [0; 32]));
    assert!(!refused(|bootstrap| bootstrap.profile_label = "another label"));

    let context = Some(MainnetClientCodecError::Context);
    assert!(session_over(&bootstrap(), Err(ProfileMismatch)).err() == context);
    let mut other_slots = profile();
    other_slots.response_slots += 1;
    assert!(session_over(&bootstrap(), Ok(other_slots)).err() == context);
    let mut other_width = profile();
    other_width.envelope_bytes += 1;
    assert!(session_over(&bootstrap(), Ok(other_width)).err() == context);
}

#[test]
fn queries_are_sealed_for_both_standard_scripts() {
    let session = session();
    let sealed = session
        .seal_query_with_nonce(&p2pkh(), 0x0102_0304, [8; 24])
        .unwrap();
    assert_eq!(sealed[..3], [PrivateNetwork::Testnet.tag(), 3, 1]);
    assert_eq!(sealed[12..32], [0x77; 20]);
    assert_eq!(sealed[32..56], [8; 24]);
    assert_eq!(sealed[56..60], [1, 2, 3, 4]);

    let p2sh = AddrScript {
        hash: [0x77; 20],
        script_type: 0x01,
    };
    assert_eq!(
        session.seal_query_with_nonce(&p2sh, 0, [8; 24]).unwrap()[2],
        2
    );
    assert_eq!(
        script_kind(0),
        Some(StandardScriptKind::PayToPublicKeyHash)
    );
    assert_eq!(script_kind(1), Some(StandardScriptKind::PayToScriptHash));
    for script_type in 2..=u8::MAX {
        assert_eq!(script_kind(script_type), None);
    }
}

#[test]
fn each_sealed_query_has_a_nonce_of_its_own() {
    let session = session();
    let first = session.seal_query(&p2pkh(), 0).unwrap();
    let second = session.seal_query(&p2pkh(), 0).unwrap();
    assert_ne!(first[32..56], second[32..56]);
    assert_ne!(first[32..56], [0; 24]);
    assert_eq!(first[..32], second[..32]);
}

#[test]
fn unsupported_addresses_and_codec_refusals_are_told_apart() {
    let session = session();
    let unknown = AddrScript {
        hash: [0x77; 20],
        script_type: 0x02,
    };
    assert_eq!(
        session.seal_query(&unknown, 0),
        Err(MainnetClientCodecError::Address)
    );
    assert_eq!(
        session.seal_query_with_nonce(&unknown, 0, [8; 24]),
        Err(MainnetClientCodecError::Address)
    );
    let refused = AddrScript {
        hash: REFUSED_HASH,
        script_type: 0x00,
    };
    assert_eq!(
        session.seal_query(&refused, 0),
        Err(MainnetClientCodecError::Seal)
    );
    for error in [
        MainnetClientCodecError::Context,
        MainnetClientCodecError::Address,
        MainnetClientCodecError::Entropy,
        MainnetClientCodecError::Seal,
        MainnetClientCodecError::Open,
    ] {
        assert_eq!(
            error.message(),
            "mainnet private client codec refused the operation"
        );
    }
}

fn envelope(first: u8) -> [u8; ENVELOPE_BYTES] {
    let mut envelope = [0; ENVELOPE_BYTES];
    envelope[0] = first;
    envelope[1..33].copy_from_slice(&[0x22; 32]);
    envelope
}

#[test]
fn occupied_slots_become_the_wallets_outputs() {
    let page = session()
        .open_single_page_response(envelope(1))
        .unwrap();
    assert_eq!(page.outcome, MainnetClientOutcome::Complete);
    assert!(!page.has_more);
    assert_eq!(
        page.utxos,
        vec![
            MainnetClientUtxo {
                txid: [1; 32],
                output_index: 1,
                value_zat: 1_001,
                height: 600,
                script: vec![0x76, 0xa9],
            },
            MainnetClientUtxo {
                txid: [2; 32],
                output_index: 2,
                value_zat: 1_002,
                height: 600,
                script: vec![0xa9; 25],
            },
        ]
    );
}

#[test]
fn responses_a_wallet_cannot_use_are_refused() {
    let session = session();
    let open = Err(MainnetClientCodecError::Open);
    // Not authenticated, of another checkpoint, continued, and of an unknown outcome.
    for first in [0, 3, 4, 5] {
        assert_eq!(session.open_single_page_response(envelope(first)), open);
    }
    let mut foreign = envelope(1);
    foreign[1] ^= 1;
    assert_eq!(session.open_single_page_response(foreign), open);
}

#[test]
fn every_outcome_keeps_its_name() {
    for (outcome, expected) in [
        (QueryOutcome::Complete, MainnetClientOutcome::Complete),
        (
            QueryOutcome::ResultBudgetExceeded,
            MainnetClientOutcome::ResultBudgetExceeded,
        ),
        (
            QueryOutcome::InvalidDomain,
            MainnetClientOutcome::InvalidDomain,
        ),
        (
            QueryOutcome::StoreFailure,
            MainnetClientOutcome::StoreFailure,
        ),
        (
            QueryOutcome::ProjectionNotReady,
            MainnetClientOutcome::ProjectionNotReady,
        ),
        (
            QueryOutcome::InvalidContinuation,
            MainnetClientOutcome::InvalidContinuation,
        ),
    ] {
        assert_eq!(MainnetClientOutcome::from_query(outcome), Ok(expected));
    }
    assert_eq!(
        MainnetClientOutcome::from_query(QueryOutcome::Unclassified),
        Err(MainnetClientCodecError::Open)
    );
}

#[test]
fn an_accepted_page_is_of_the_wallets_checkpoint() {
    let own = response(1);
    let page = wallet_page(own.clone(), &checkpoint()).unwrap();
    assert_eq!(page.utxos.len(), 2);
    let mut elsewhere = checkpoint();
    elsewhere.projection_epoch += 1;
    assert!(wallet_page(own, &elsewhere).is_err());
    let mut masked = response(1);
    masked.page = UtxoResultPage::empty(SLOTS);
    assert!(wallet_page(masked, &checkpoint()).unwrap().utxos.is_empty());
}

/// Fills with one byte, or fails, and counts its draws.
struct OneByteEntropy {
    fill: Option<u8>,
    drawn: usize,
}

impl RoundEntropy for OneByteEntropy {
    fn fill(&mut self, bytes: &mut [u8]) -> Result<(), RoundMaterialUnavailable> {
        self.drawn += 1;
        bytes.fill(self.fill.ok_or(RoundMaterialUnavailable)?);
        Ok(())
    }
}

#[test]
fn queries_are_sealed_under_the_nonce_that_was_drawn() {
    let session = session();
    let mut entropy = OneByteEntropy {
        fill: Some(0x3c),
        drawn: 0,
    };
    let sealed = session.seal_query_from(&p2pkh(), 5, &mut entropy).unwrap();

    assert_eq!(sealed[32..56], [0x3c; 24]);
    assert_eq!(entropy.drawn, 1);
    assert_eq!(
        Ok(sealed),
        session.seal_query_with_nonce(&p2pkh(), 5, [0x3c; 24])
    );
}

#[test]
fn a_query_without_a_nonce_is_not_sealed() {
    let session = session();
    let mut entropy = OneByteEntropy {
        fill: None,
        drawn: 0,
    };
    let unknown = AddrScript {
        hash: [0x77; 20],
        script_type: 0x02,
    };

    assert_eq!(
        session.seal_query_from(&unknown, 0, &mut entropy),
        Err(MainnetClientCodecError::Address)
    );
    assert_eq!(entropy.drawn, 0);
    assert_eq!(
        session.seal_query_from(&p2pkh(), 0, &mut entropy),
        Err(MainnetClientCodecError::Entropy)
    );
    assert_eq!(entropy.drawn, 1);
}
