use std::cell::RefCell;
use std::rc::Rc;

use zaino_oram::continuation::ContinuationInspection;
use zaino_oram::continuation::ContinuationReplayGuard;
use zaino_oram::continuation::ContinuationUse;
use zaino_oram::failure::PrivateQueryUnavailable;
use zaino_oram::failure::UniformExternalFailure;
use zaino_oram::instances::InstanceSource;
use zaino_oram::private_service::FinalizedProjection;
use zaino_oram::private_service::PublicChainCheckpoint;
use zaino_oram::profile::CompiledQueryShape;
use zaino_oram::profile::CompiledReplayPolicy;
use zaino_oram::profile::PrivacyProfile;
use zaino_oram::protection::ProtectionUnavailable;
use zaino_oram::providers::ContinuationTokenProtector;
use zaino_oram::providers::EngineUnavailable;
use zaino_oram::providers::FrozenRecentSnapshot;
use zaino_oram::providers::PrivateQueryCodec;
use zaino_oram::providers::PrivateQueryEngine;
use zaino_oram::providers::ServingEpochCurrentness;
use zaino_oram::providers::ServingEpochObservation;
use zaino_oram::providers::ServingEpochUnavailable;
use zaino_oram::providers::SlotUnreadable;
use zaino_oram::records::recent_snapshot_identity;
use zaino_oram::records::FinalizedRuntimeBuildError;
use zaino_oram::records::PrivateNetwork;
use zaino_oram::records::PrivateQueryCheckpoint;
use zaino_oram::records::QueryOutcome;
use zaino_oram::records::RecentSnapshotIdentity;
use zaino_oram::records::ResultSlot;
use zaino_oram::records::TransparentUtxo;
use zaino_oram::records::UtxoQuery;
use zaino_oram::records::UtxoResultPage;
use zaino_oram::records::ADDRESS_KEY_BYTES;
use zaino_oram::records::TXID_BYTES;
use zaino_oram::release_gate::FinalizedRuntimeOwnerError;
use zaino_oram::release_gate::ResponseReleaseGate;
use zaino_oram::release_gate::ResponseReleaseState;
use zaino_oram::round::compose_response;
use zaino_oram::round::degrades;
use zaino_oram::round::plan_round;
use zaino_oram::round::protected_outcome;
use zaino_oram::round::select_readiness;
use zaino_oram::round::ContinuationExpectation;
use zaino_oram::round::ContinuationProtectionContext;
use zaino_oram::round::ContinuationState;
use zaino_oram::round::ContinuationToken;
use zaino_oram::round::DecodedRequest;
use zaino_oram::round::EngineExecution;
use zaino_oram::round::InnerCodecError;
use zaino_oram::round::PrivateQueryResponse;
use zaino_oram::round::RoundFacts;
use zaino_oram::round::RoundReadiness;
use zaino_oram::round::SnapshotScan;
use zaino_oram::round::CONTINUATION_TOKEN_BYTES;
use zaino_oram::round::CONTINUATION_VERSION;
use zaino_oram::runtime::PrivateQueryRuntime;
use zaino_oram::runtime::RuntimeRound;
use zaino_oram::runtime_owner::handle_finalized_runtime_round;
use zaino_oram::runtime_owner::replace_finalized_runtime_epoch_from;
use zaino_oram::runtime_owner::retire_before_replacement;
use zaino_oram::runtime_owner::retire_unhealthy_finalized_runtime_after_round;
use zaino_oram::runtime_owner::stop_finalized_runtime;
use zaino_oram::runtime_owner::stop_finalized_runtime_after_responses;
use zaino_oram::runtime_owner::FinalizedRuntimeOwner;
use zaino_oram::runtime_owner::RecentSnapshotRefreshController;
use zaino_oram::runtime_owner::PendingRuntimeRound;
use zaino_oram::runtime_security::ContinuationReplayClaim;
use zaino_oram::runtime_security::ContinuationReplayPlan;
use zaino_oram::runtime_security::ExpiryBucketOrdinal;
use zaino_oram::runtime_security::ReplayCommitAuthority;
use zaino_oram::runtime_security::ReplayCommitResult;
use zaino_oram::runtime_security::ReplayCommitUnavailable;
use zaino_oram::runtime_security::ReplayDuplicateDecision;
use zaino_oram::runtime_security::RequestReplayKey;
use zaino_oram::runtime_security::RoundReservationAuthority;
use zaino_oram::runtime_security::SecurityEpochTag;
use zaino_oram::runtime_security::SecurityRoundCapture;
use zaino_oram::runtime_security::ENVELOPE_NONCE_BYTES;
use zaino_oram::runtime_security::REPLAY_RECORD_KEY_BYTES;
use zaino_oram::security_owner::ActiveSecurityLease;
use zaino_oram::security_owner::InProcessSecurityEpochCurrentness;
use zaino_oram::security_owner::ReplayNamespace;
use zaino_oram::security_owner::ReplayNamespaceSeed;
use zaino_oram::security_owner::RoundMaterial;
use zaino_oram::security_owner::RoundMaterialSource;
use zaino_oram::security_owner::RoundMaterialUnavailable;
use zaino_oram::security_owner::SecurityLeaseIdentity;
use zaino_oram::serving_epoch::ServingEpochCapture;
use zaino_oram::serving_epoch::ServingEpochLease;
use zaino_oram::trace::AccessTrace;
use zaino_oram::trace::CompletionShape;
use zaino_oram::trace::RuntimePhase;
use zaino_oram::trace::TraceError;
use zaino_oram::trace::TraceRecorder;
use zaino_oram::trace::RUNTIME_PHASE_COUNT;

const RESPONSE_SLOTS: usize = 2;
const ENVELOPE_BYTES: usize = 512;
const SESSION_BINDING: [u8; 32] = [0x22; 32];
const SERVICE_NAMESPACE_ID: [u8; 16] = [0x23; 16];
const OWNER_GENERATION: u64 = 1;
const SECURITY_EPOCH_BINDING: [u8; 32] = [0x24; 32];
const TOKEN_TTL_SECONDS: u64 = 60;
const BLOCK_HASH_DISPLAY: [u8; 32] = [0x31; 32];
const RECENT_TIP_HASH_DISPLAY: [u8; 32] = [0x32; 32];
const RECENT_SNAPSHOT_SLOTS: usize = 4;
const EPOCH_INSTANCE: u64 = 0;
const UNOPENABLE_SESSION_BINDING: [u8; 32] = [0xee; 32];
const SCRIPT_BYTES: usize = 40;
const REQUEST_KEY: [u8; 32] = [0x91; 32];
const RESPONSE_KEY: [u8; 32] = [0x92; 32];
const TOKEN_KEY: [u8; 32] = [0x93; 32];

/// A keyed fold of a byte string: enough to tell two inputs of these tests apart.
fn folded<const N: usize>(key: &[u8], parts: &[&[u8]]) -> [u8; N] {
    let mut digest = [0_u8; N];
    for (index, slot) in digest.iter_mut().enumerate() {
        *slot = key[index % key.len()];
    }
    let mut index: usize = 0;
    for part in parts {
        for byte in part.iter() {
            let slot = index % N;
            let carried = digest[(slot + 1) % N].rotate_left(3);
            digest[slot] = digest[slot].rotate_left((index % 8) as u32)
                ^ byte
                ^ (index as u8).wrapping_mul(29)
                ^ carried;
            index += 1;
        }
    }
    digest
}

fn checkpoint_bytes(checkpoint: &PrivateQueryCheckpoint) -> Vec<u8> {
    let mut bytes = vec![checkpoint.network.tag()];
    bytes.extend_from_slice(&checkpoint.height.to_be_bytes());
    bytes.extend_from_slice(&checkpoint.block_hash_display);
    bytes.extend_from_slice(&checkpoint.schema_version.to_be_bytes());
    bytes.extend_from_slice(&checkpoint.projection_epoch.to_be_bytes());
    bytes.extend_from_slice(&checkpoint.key_epoch.to_be_bytes());
    bytes
}

/// Reads a byte string from its front.
struct Reader<'a> {
    bytes: &'a [u8],
}

impl<'a> Reader<'a> {
    fn take(&mut self, count: usize) -> &'a [u8] {
        let (front, rest) = self.bytes.split_at(count);
        self.bytes = rest;
        front
    }

    fn array<const N: usize>(&mut self) -> [u8; N] {
        let mut array = [0; N];
        array.copy_from_slice(self.take(N));
        array
    }

    fn byte(&mut self) -> u8 {
        self.take(1)[0]
    }

    fn u32(&mut self) -> u32 {
        u32::from_be_bytes(self.array())
    }

    fn u64(&mut self) -> u64 {
        u64::from_be_bytes(self.array())
    }

    fn checkpoint(&mut self) -> Option<PrivateQueryCheckpoint> {
        let network = PrivateNetwork::try_from_tag(self.byte()).ok()?;
        let height = self.u32();
        let block_hash_display = self.array();
        let schema_version = self.u32();
        let projection_epoch = self.u64();
        let key_epoch = self.u64();
        Some(PrivateQueryCheckpoint::new(
            network,
            height,
            block_hash_display,
            schema_version,
            projection_epoch,
            key_epoch,
        ))
    }

    fn token(&mut self) -> Option<ContinuationToken> {
        let present = self.byte();
        let bytes = self.array();
        if present == 1 {
            Some(ContinuationToken::from_opaque_bytes(bytes))
        } else {
            None
        }
    }
}

/// Seals and opens envelopes with two keys, under what a codec has it authenticate.
#[derive(Clone)]
struct TestEnvelopes {
    request_key: [u8; 32],
    response_key: [u8; 32],
    opens: usize,
    seals: usize,
    open_unavailable: bool,
    seal_unavailable: bool,
}

impl TestEnvelopes {
    fn authentication(
        &self,
        direction: u8,
        codec: &TestCodec,
        nonce: &[u8],
        body: &[u8],
    ) -> [u8; 16] {
        let key = if direction == 0 {
            self.request_key
        } else {
            self.response_key
        };
        folded(
            &key,
            &[
                &[0, 1],
                &[direction],
                &codec.profile_id,
                &codec.session_binding,
                nonce,
                body,
            ],
        )
    }

    fn seal(
        &self,
        direction: u8,
        codec: &TestCodec,
        nonce: &[u8],
        mut body: Vec<u8>,
    ) -> [u8; ENVELOPE_BYTES] {
        body.resize(ENVELOPE_BYTES - ENVELOPE_NONCE_BYTES - 16, 0);
        let authentication = self.authentication(direction, codec, nonce, &body);
        let mut envelope = [0; ENVELOPE_BYTES];
        envelope[..ENVELOPE_NONCE_BYTES].copy_from_slice(nonce);
        envelope[ENVELOPE_NONCE_BYTES..ENVELOPE_BYTES - 16].copy_from_slice(&body);
        envelope[ENVELOPE_BYTES - 16..].copy_from_slice(&authentication);
        envelope
    }

    fn open<'a>(
        &self,
        direction: u8,
        codec: &TestCodec,
        envelope: &'a [u8; ENVELOPE_BYTES],
    ) -> Option<Reader<'a>> {
        let (nonce, rest) = envelope.split_at(ENVELOPE_NONCE_BYTES);
        let (body, authentication) = rest.split_at(ENVELOPE_BYTES - ENVELOPE_NONCE_BYTES - 16);
        if self.authentication(direction, codec, nonce, body)[..] != *authentication {
            return None;
        }
        Some(Reader { bytes: body })
    }
}

/// The codec of one profile and one session.
#[derive(Clone)]
struct TestCodec {
    profile_id: [u8; 16],
    session_binding: [u8; 32],
}

impl TestCodec {
    fn encode_request(
        &self,
        checkpoint: &PrivateQueryCheckpoint,
        query: &UtxoQuery,
        continuation: &Option<ContinuationToken>,
        nonce: [u8; ENVELOPE_NONCE_BYTES],
        protector: &TestEnvelopes,
    ) -> [u8; ENVELOPE_BYTES] {
        let mut body = vec![0];
        body.extend_from_slice(&checkpoint_bytes(checkpoint));
        body.push(u8::from(query.address_key.is_some()));
        body.extend_from_slice(&query.address_key.unwrap_or([0; ADDRESS_KEY_BYTES]));
        body.extend_from_slice(&query.minimum_height.to_be_bytes());
        body.push(u8::from(continuation.is_some()));
        body.extend_from_slice(
            &continuation.map_or([0; CONTINUATION_TOKEN_BYTES], |token| *token.opaque_bytes()),
        );
        protector.seal(0, self, &nonce, body)
    }

    fn decode_response(
        &self,
        envelope: &[u8; ENVELOPE_BYTES],
        protector: &TestEnvelopes,
    ) -> Option<PrivateQueryResponse> {
        let mut reader = protector.open(1, self, envelope)?;
        let checkpoint = reader.checkpoint()?;
        let outcome = match reader.byte() {
            0 => QueryOutcome::Complete,
            1 => QueryOutcome::ResultBudgetExceeded,
            2 => QueryOutcome::InvalidDomain,
            3 => QueryOutcome::StoreFailure,
            4 => QueryOutcome::ProjectionNotReady,
            _ => QueryOutcome::InvalidContinuation,
        };
        let has_more = reader.byte() == 1;
        let continuation = reader.token();
        let mut page = UtxoResultPage::empty(RESPONSE_SLOTS);
        page.set_outcome(outcome);
        for slot in page.slots.iter_mut() {
            let occupied = reader.byte() == 1;
            let txid = reader.array();
            let output_index = reader.u32();
            let value_zat = reader.u64();
            let height = reader.u32();
            let script_len = usize::from(reader.byte());
            let script = reader.take(SCRIPT_BYTES);
            if occupied {
                *slot = ResultSlot::Occupied(
                    TransparentUtxo::new(
                        txid,
                        output_index,
                        value_zat,
                        height,
                        &script[..script_len],
                        SCRIPT_BYTES,
                    )?,
                );
            }
        }
        Some(PrivateQueryResponse {
            checkpoint,
            page,
            has_more,
            continuation,
        })
    }
}

impl PrivateQueryCodec<TestEnvelopes, RESPONSE_SLOTS, ENVELOPE_BYTES> for TestCodec {
    /// No codec opens for the unopenable session.
    fn open(shape: &TestShape, session_binding: [u8; 32]) -> Result<Self, InnerCodecError> {
        if session_binding == UNOPENABLE_SESSION_BINDING {
            return Err(InnerCodecError::ProtectionUnavailable);
        }
        Ok(Self {
            profile_id: *shape.profile().profile_id(),
            session_binding,
        })
    }

    fn decode_request_with_nonce(
        &self,
        envelope: &[u8; ENVELOPE_BYTES],
        protector: &mut TestEnvelopes,
    ) -> Result<DecodedRequest, InnerCodecError> {
        protector.opens += 1;
        if protector.open_unavailable {
            return Err(InnerCodecError::ProtectionUnavailable);
        }
        let mut reader = protector
            .open(0, self, envelope)
            .ok_or(InnerCodecError::AuthenticationFailed)?;
        if reader.byte() != 0 {
            return Err(InnerCodecError::NonCanonical);
        }
        let checkpoint = reader.checkpoint().ok_or(InnerCodecError::NonCanonical)?;
        let keyed = reader.byte() == 1;
        let key = reader.array();
        let minimum_height = reader.u32();
        let continuation = reader.token();
        let mut nonce = [0; ENVELOPE_NONCE_BYTES];
        nonce.copy_from_slice(&envelope[..ENVELOPE_NONCE_BYTES]);
        Ok(DecodedRequest {
            checkpoint,
            query: UtxoQuery {
                address_key: if keyed { Some(key) } else { None },
                minimum_height,
            },
            continuation,
            nonce,
        })
    }

    fn encode_response(
        &self,
        response: &PrivateQueryResponse,
        nonce: [u8; ENVELOPE_NONCE_BYTES],
        protector: &mut TestEnvelopes,
    ) -> Result<[u8; ENVELOPE_BYTES], InnerCodecError> {
        protector.seals += 1;
        if protector.seal_unavailable {
            return Err(InnerCodecError::ProtectionUnavailable);
        }
        let mut body = checkpoint_bytes(&response.checkpoint);
        body.push(match response.page.outcome() {
            QueryOutcome::Complete => 0,
            QueryOutcome::ResultBudgetExceeded => 1,
            QueryOutcome::InvalidDomain => 2,
            QueryOutcome::StoreFailure => 3,
            QueryOutcome::ProjectionNotReady => 4,
            QueryOutcome::InvalidContinuation => 5,
            QueryOutcome::Unclassified => 6,
        });
        body.push(u8::from(response.has_more));
        body.push(u8::from(response.continuation.is_some()));
        body.extend_from_slice(
            &response
                .continuation
                .map_or([0; CONTINUATION_TOKEN_BYTES], |token| *token.opaque_bytes()),
        );
        for slot in &response.page.slots {
            match slot {
                ResultSlot::Dummy => body.extend_from_slice(&[0; 1 + 32 + 4 + 8 + 4 + 1 + 40]),
                ResultSlot::Occupied(record) => {
                    body.push(1);
                    body.extend_from_slice(record.txid());
                    body.extend_from_slice(&record.output_index().to_be_bytes());
                    body.extend_from_slice(&record.value_zat().to_be_bytes());
                    body.extend_from_slice(&record.height().to_be_bytes());
                    body.push(record.script_len() as u8);
                    body.extend_from_slice(record.padded_script());
                }
            }
        }
        Ok(protector.seal(1, self, &nonce, body))
    }

    fn bound_query_digest(
        &self,
        query: &UtxoQuery,
        snapshot_binding_digest: [u8; 32],
    ) -> [u8; 32] {
        folded(
            &[0x17],
            &[
                &[u8::from(query.address_key.is_some())],
                &query.address_key.unwrap_or([0; ADDRESS_KEY_BYTES]),
                &query.minimum_height.to_be_bytes(),
                &snapshot_binding_digest,
            ],
        )
    }

    fn continuation_protection_context(
        &self,
        checkpoint: &PrivateQueryCheckpoint,
    ) -> Result<ContinuationProtectionContext, InnerCodecError> {
        let mut bytes = self.profile_id.to_vec();
        bytes.extend_from_slice(&self.session_binding);
        bytes.extend_from_slice(&checkpoint_bytes(checkpoint));
        Ok(ContinuationProtectionContext(bytes))
    }
}

#[derive(Clone)]
struct CountingTokenProtector {
    key: [u8; 32],
    opens: usize,
    seals: usize,
    open_unavailable: bool,
    seal_unavailable: bool,
}

impl CountingTokenProtector {
    fn new() -> Self {
        Self {
            key: TOKEN_KEY,
            opens: 0,
            seals: 0,
            open_unavailable: false,
            seal_unavailable: false,
        }
    }

    fn authentication(
        &self,
        context: &ContinuationProtectionContext,
        nonce: &[u8],
        body: &[u8],
    ) -> [u8; 16] {
        folded(&self.key, &[&context.0, nonce, body])
    }

    fn accepted(
        &self,
        token: &ContinuationToken,
        context: &ContinuationProtectionContext,
        expectation: &ContinuationExpectation,
    ) -> Option<(u64, u64)> {
        let bytes = token.opaque_bytes();
        let (nonce, rest) = bytes.split_at(ENVELOPE_NONCE_BYTES);
        let (body, authentication) = rest.split_at(88);
        if self.authentication(context, nonce, body)[..] != *authentication {
            return None;
        }
        let mut reader = Reader { bytes: body };
        let version = u16::from_be_bytes(reader.array());
        let profile_id: [u8; 16] = reader.array();
        let query_digest: [u8; 32] = reader.array();
        let projection_epoch = reader.u64();
        let cursor = reader.u64();
        let expires_at_unix_seconds = reader.u64();
        if version != expectation.version
            || profile_id != expectation.profile_id
            || query_digest != expectation.query_digest
            || projection_epoch != expectation.projection_epoch
            || cursor == 0
            || cursor >= expectation.cursor_limit
            || expectation.now_unix_seconds >= expires_at_unix_seconds
        {
            return None;
        }
        Some((cursor, expires_at_unix_seconds))
    }
}

impl ContinuationTokenProtector for CountingTokenProtector {
    fn derive_replay_namespace(seed: &ReplayNamespaceSeed) -> ReplayNamespace {
        ReplayNamespace(folded(
            &[0x32],
            &[
                &seed.service_namespace_id,
                &seed.protocol_version.to_be_bytes(),
                &seed.owner_generation.to_be_bytes(),
                &seed.key_epoch.to_be_bytes(),
                &seed.profile_id,
                &seed.session_binding,
            ],
        ))
    }

    fn inspect_optional(
        &mut self,
        token: &Option<ContinuationToken>,
        context: &ContinuationProtectionContext,
        expectation: &ContinuationExpectation,
        namespace: &ReplayNamespace,
        request_nonce: [u8; ENVELOPE_NONCE_BYTES],
    ) -> ContinuationInspection {
        self.opens += 1;
        let request_key = RequestReplayKey(folded(
            &[0x33],
            &[&namespace.0, &request_nonce],
        ));
        let (continuation_use, plan) = if self.open_unavailable {
            (
                ContinuationUse::ProtectionUnavailable,
                ContinuationReplayPlan::Cover,
            )
        } else {
            match token {
                None => (ContinuationUse::Initial, ContinuationReplayPlan::Cover),
                Some(token) => match self.accepted(token, context, expectation) {
                    None => (
                        ContinuationUse::InvalidContinuation,
                        ContinuationReplayPlan::Cover,
                    ),
                    Some((cursor, expires_at_unix_seconds)) => (
                        ContinuationUse::Continue {
                            cursor,
                            expires_at_unix_seconds,
                        },
                        ContinuationReplayPlan::ClaimOrCover(ContinuationReplayClaim {
                            key: folded(&[0x44], &[token.opaque_bytes()]),
                            expiry_bucket_ordinal: ExpiryBucketOrdinal::new(
                                expires_at_unix_seconds,
                            )
                            .unwrap(),
                        }),
                    ),
                },
            }
        };
        ContinuationInspection {
            continuation_use,
            request_key,
            plan,
        }
    }

    fn issue(
        &mut self,
        state: &ContinuationState,
        context: &ContinuationProtectionContext,
    ) -> Result<ContinuationToken, ProtectionUnavailable> {
        self.seals += 1;
        if self.seal_unavailable {
            return Err(ProtectionUnavailable);
        }
        let mut body = state.version.to_be_bytes().to_vec();
        body.extend_from_slice(&state.profile_id);
        body.extend_from_slice(&state.query_digest);
        body.extend_from_slice(&state.projection_epoch.to_be_bytes());
        body.extend_from_slice(&state.cursor.to_be_bytes());
        body.extend_from_slice(&state.expires_at_unix_seconds.to_be_bytes());
        body.resize(88, 0);
        let mut bytes = [0; CONTINUATION_TOKEN_BYTES];
        bytes[..24].copy_from_slice(&state.nonce);
        bytes[24..112].copy_from_slice(&body);
        bytes[112..].copy_from_slice(&self.authentication(context, &state.nonce, &body));
        Ok(ContinuationToken::from_opaque_bytes(bytes))
    }
}

#[derive(Clone)]
struct CountingReplayGuard {
    claimed_requests: [Option<RequestReplayKey>; 16],
    claimed: [Option<[u8; REPLAY_RECORD_KEY_BYTES]>; 16],
    calls: usize,
    real_claim_attempts: usize,
    logical_reads: usize,
    logical_writes: usize,
    available: bool,
}

impl CountingReplayGuard {
    fn available() -> Self {
        Self {
            claimed_requests: [None; 16],
            claimed: [None; 16],
            calls: 0,
            real_claim_attempts: 0,
            logical_reads: 0,
            logical_writes: 0,
            available: true,
        }
    }

    fn unavailable() -> Self {
        Self {
            available: false,
            ..Self::available()
        }
    }
}

impl ContinuationReplayGuard for CountingReplayGuard {
    fn commit_request_and_continuation(
        &mut self,
        security_round: &SecurityRoundCapture,
        request_key: &RequestReplayKey,
        continuation_plan: &ContinuationReplayPlan,
    ) -> Result<ReplayCommitResult, ReplayCommitUnavailable> {
        self.calls += 1;
        self.logical_reads += 1;
        self.logical_writes += 1;
        if !self.available {
            return Err(ReplayCommitUnavailable);
        }

        let request_duplicate = self
            .claimed_requests
            .iter()
            .any(|candidate| candidate.as_ref() == Some(request_key));
        let (continuation_key, continuation_duplicate) = if request_duplicate {
            (None, false)
        } else {
            match continuation_plan {
                ContinuationReplayPlan::Cover => (None, false),
                ContinuationReplayPlan::ClaimOrCover(claim) => {
                    self.real_claim_attempts += 1;
                    let key = *claim.replay_key_bytes();
                    let duplicate = self
                        .claimed
                        .iter()
                        .any(|candidate| candidate.as_ref() == Some(&key));
                    (Some(key), duplicate)
                }
            }
        };
        let decision = if request_duplicate {
            ReplayDuplicateDecision::RequestDuplicate
        } else if continuation_duplicate {
            ReplayDuplicateDecision::ContinuationDuplicate
        } else {
            ReplayDuplicateDecision::Fresh
        };

        if !request_duplicate {
            let request_slot = self
                .claimed_requests
                .iter()
                .position(Option::is_none)
                .ok_or(ReplayCommitUnavailable)?;
            let continuation_slot = if continuation_key.is_some() && !continuation_duplicate {
                Some(
                    self.claimed
                        .iter()
                        .position(Option::is_none)
                        .ok_or(ReplayCommitUnavailable)?,
                )
            } else {
                None
            };
            self.claimed_requests[request_slot] = Some(*request_key);
            if let (Some(slot), Some(key)) = (continuation_slot, continuation_key) {
                self.claimed[slot] = Some(key);
            }
        }

        Ok(ReplayCommitResult::new(
            ReplayCommitAuthority::new(security_round),
            decision,
        ))
    }
}

#[derive(Clone)]
struct DeterministicMaterialSource {
    now_unix_seconds: u64,
    calls: usize,
    fail_next: bool,
}

impl DeterministicMaterialSource {
    fn at(now_unix_seconds: u64) -> Self {
        Self {
            now_unix_seconds,
            calls: 0,
            fail_next: false,
        }
    }

    fn failing(now_unix_seconds: u64) -> Self {
        Self {
            now_unix_seconds,
            calls: 0,
            fail_next: true,
        }
    }
}

impl RoundMaterialSource for DeterministicMaterialSource {
    fn next_round_material(
        &mut self,
        security_epoch: &SecurityEpochTag,
    ) -> Result<RoundMaterial, RoundMaterialUnavailable> {
        self.calls += 1;
        if self.fail_next {
            self.fail_next = false;
            return Err(RoundMaterialUnavailable);
        }
        let ordinal = u8::try_from(self.calls).map_err(|_| RoundMaterialUnavailable)?;
        let response_nonce = [ordinal.wrapping_add(0x80); ENVELOPE_NONCE_BYTES];
        let token_nonce = [ordinal.wrapping_add(0x40); ENVELOPE_NONCE_BYTES];
        let security_round = SecurityRoundCapture::new(security_epoch, u64::from(ordinal));
        let reservation_authority = RoundReservationAuthority::new(
            &security_round,
            self.now_unix_seconds,
            response_nonce,
            token_nonce,
        );
        let material = RoundMaterial::new(
            self.now_unix_seconds,
            response_nonce,
            token_nonce,
            security_round,
            reservation_authority,
        );
        self.now_unix_seconds = self
            .now_unix_seconds
            .checked_add(1)
            .ok_or(RoundMaterialUnavailable)?;
        Ok(material)
    }
}

#[derive(Clone, PartialEq)]
enum RecentSlot {
    Dummy,
    Created([u8; ADDRESS_KEY_BYTES], TransparentUtxo),
}

fn created(key: [u8; ADDRESS_KEY_BYTES], record: TransparentUtxo) -> RecentSlot {
    RecentSlot::Created(key, record)
}

#[derive(Clone, Copy, PartialEq, Eq, Debug)]
struct Lineage {
    generation: u64,
    network_tag: u8,
    finalized_height: u32,
    finalized_hash: [u8; 32],
    schema_version: u32,
    projection_epoch: u64,
    key_epoch: u64,
    recent_tip_height: u32,
    recent_tip_hash: [u8; 32],
}

impl Lineage {
    fn at_generation(identity: RecentSnapshotIdentity, generation: u64) -> Self {
        Self {
            generation,
            network_tag: identity.network_tag,
            finalized_height: identity.finalized_height,
            finalized_hash: identity.finalized_hash_display,
            schema_version: identity.schema_version,
            projection_epoch: identity.projection_epoch,
            key_epoch: identity.key_epoch,
            recent_tip_height: identity.finalized_height + 1,
            recent_tip_hash: RECENT_TIP_HASH_DISPLAY,
        }
    }

    fn identity(&self) -> RecentSnapshotIdentity {
        RecentSnapshotIdentity::new(
            self.network_tag,
            self.finalized_height,
            self.finalized_hash,
            self.schema_version,
            self.projection_epoch,
            self.key_epoch,
        )
    }

    fn binding_digest(&self, content_digest: [u8; 32]) -> [u8; 32] {
        folded(
            &[0x29],
            &[
                &self.generation.to_be_bytes(),
                &[self.network_tag],
                &self.finalized_height.to_be_bytes(),
                &self.finalized_hash,
                &self.schema_version.to_be_bytes(),
                &self.projection_epoch.to_be_bytes(),
                &self.key_epoch.to_be_bytes(),
                &self.recent_tip_height.to_be_bytes(),
                &self.recent_tip_hash,
                &content_digest,
            ],
        )
    }
}

fn content_digest(slots: &[RecentSlot]) -> [u8; 32] {
    let mut bytes = Vec::new();
    for slot in slots {
        match slot {
            RecentSlot::Dummy => bytes.push(0),
            RecentSlot::Created(key, record) => {
                bytes.push(1);
                bytes.extend_from_slice(key);
                bytes.extend_from_slice(record.txid());
                bytes.extend_from_slice(&record.output_index().to_be_bytes());
                bytes.extend_from_slice(&record.height().to_be_bytes());
            }
        }
    }
    folded(&[0x31], &[&bytes])
}

#[derive(Clone)]
struct TestSnapshot {
    lineage: Lineage,
    slots: Vec<RecentSlot>,
    failing: Option<usize>,
    read_calls: usize,
    frozen_content: [u8; 32],
    frozen_binding: [u8; 32],
}

impl TestSnapshot {
    fn new(lineage: Lineage, slots: Vec<RecentSlot>) -> Self {
        let frozen_content = content_digest(&slots);
        let frozen_binding = lineage.binding_digest(frozen_content);
        Self {
            lineage,
            slots,
            failing: None,
            read_calls: 0,
            frozen_content,
            frozen_binding,
        }
    }

    fn failing(lineage: Lineage, slots: Vec<RecentSlot>, ordinal: usize) -> Self {
        Self {
            failing: Some(ordinal),
            ..Self::new(lineage, slots)
        }
    }
}

impl FrozenRecentSnapshot for TestSnapshot {
    type Slot = RecentSlot;

    fn dummy_slot(&self) -> RecentSlot {
        RecentSlot::Dummy
    }

    fn read_slot(&mut self, ordinal: usize) -> Result<RecentSlot, SlotUnreadable> {
        self.read_calls += 1;
        if self.failing == Some(ordinal) {
            return Err(SlotUnreadable);
        }
        self.slots.get(ordinal).cloned().ok_or(SlotUnreadable)
    }

    fn frozen(&self) -> SnapshotScan {
        SnapshotScan {
            slots: self.slots.len(),
            identity: self.lineage.identity(),
            content_digest: self.frozen_content,
            binding_digest: self.frozen_binding,
        }
    }

    fn describe(&self, scanned: &Vec<RecentSlot>) -> SnapshotScan {
        let content_digest = content_digest(scanned);
        SnapshotScan {
            slots: self.slots.len(),
            identity: self.lineage.identity(),
            content_digest,
            binding_digest: self.lineage.binding_digest(content_digest),
        }
    }
}

/// A plaintext store of one address, read slot by slot.
#[derive(Clone)]
struct MockStore {
    slots_per_key: usize,
    entries: Vec<(usize, [u8; ADDRESS_KEY_BYTES], TransparentUtxo)>,
    failing_read: Option<usize>,
    reads: usize,
    /// The profile that it was opened for, once it was.
    opened_for: Option<[u8; 16]>,
}

impl MockStore {
    fn with_failure_on_read(mut self, ordinal: usize) -> Self {
        self.failing_read = Some(ordinal);
        self
    }
}

impl PrivateQueryEngine<RecentSlot> for MockStore {
    type Store = MockStore;

    /// No engine opens over a store without slots.
    fn open(mut store: MockStore, profile: &PrivacyProfile) -> Result<Self, EngineUnavailable> {
        if store.slots_per_key == 0 {
            return Err(EngineUnavailable);
        }
        store.opened_for = Some(*profile.profile_id());
        Ok(store)
    }

    fn slots_per_key(&self) -> usize {
        self.slots_per_key
    }

    fn execute_from(
        &mut self,
        query: &UtxoQuery,
        cursor: usize,
        recent: &Vec<RecentSlot>,
    ) -> Result<EngineExecution, EngineUnavailable> {
        let mut found: Vec<(usize, TransparentUtxo)> = Vec::new();
        let mut failed = false;
        for slot in 0..self.slots_per_key {
            self.reads += 1;
            if self.failing_read == Some(slot + 1) {
                failed = true;
            }
            for (at, key, record) in &self.entries {
                if *at == slot && query.address_key == Some(*key) {
                    found.push((slot, record.clone()));
                }
            }
        }
        let mut malformed = false;
        for (ordinal, slot) in recent.iter().enumerate() {
            if let RecentSlot::Created(key, record) = slot {
                malformed |= recent[..ordinal].contains(slot);
                if query.address_key == Some(*key) {
                    found.push((self.slots_per_key + ordinal, record.clone()));
                }
            }
        }
        let mut page = UtxoResultPage::empty(RESPONSE_SLOTS);
        let mut next_cursor = None;
        if failed {
            page.set_outcome(QueryOutcome::StoreFailure);
        } else if malformed {
            page.set_outcome(QueryOutcome::ProjectionNotReady);
        } else if query.address_key.is_none() {
            page.set_outcome(QueryOutcome::InvalidDomain);
        } else {
            let matching = found
                .into_iter()
                .filter(|(at, record)| *at >= cursor && record.height() >= query.minimum_height);
            let mut filled: usize = 0;
            for (at, record) in matching {
                if filled == RESPONSE_SLOTS {
                    page.set_outcome(QueryOutcome::ResultBudgetExceeded);
                    next_cursor = Some(at);
                    break;
                }
                page.slots[filled] = ResultSlot::Occupied(record);
                filled += 1;
            }
        }
        Ok(EngineExecution {
            page,
            next_cursor,
            store_reads: self.slots_per_key,
        })
    }
}

struct CurrentnessState {
    identity: RecentSnapshotIdentity,
    boundary: u64,
    available: bool,
    calls: usize,
    published: bool,
    clear_after_comparison: bool,
}

#[derive(Clone)]
struct TestCurrentness {
    state: Rc<RefCell<CurrentnessState>>,
}

impl ServingEpochCurrentness for TestCurrentness {
    fn observe(&mut self) -> Result<ServingEpochObservation, ServingEpochUnavailable> {
        let mut state = self.state.borrow_mut();
        state.calls += 1;
        if !state.available {
            return Err(ServingEpochUnavailable);
        }
        Ok(ServingEpochObservation {
            identity: state.identity,
            boundary: state.boundary,
        })
    }

    fn is_published(&mut self) -> bool {
        let mut state = self.state.borrow_mut();
        if state.clear_after_comparison {
            state.published = false;
        }
        state.published
    }

    fn handle(&self) -> Self {
        self.clone()
    }
}

type TestRuntime = PrivateQueryRuntime<
    MockStore,
    TestCodec,
    TestEnvelopes,
    CountingTokenProtector,
    CountingReplayGuard,
    DeterministicMaterialSource,
    TestCurrentness,
    TestSnapshot,
    RESPONSE_SLOTS,
    ENVELOPE_BYTES,
>;

type TestLease = ActiveSecurityLease<
    TestEnvelopes,
    CountingTokenProtector,
    CountingReplayGuard,
    DeterministicMaterialSource,
>;

type TestShape = CompiledQueryShape<RESPONSE_SLOTS, ENVELOPE_BYTES>;

type TestPendingRound = PendingRuntimeRound<TestCurrentness, ENVELOPE_BYTES>;

type TestOwner = FinalizedRuntimeOwner<
    MockStore,
    TestCodec,
    TestEnvelopes,
    CountingTokenProtector,
    CountingReplayGuard,
    DeterministicMaterialSource,
    TestCurrentness,
    TestSnapshot,
    RESPONSE_SLOTS,
    ENVELOPE_BYTES,
>;

type TestEpoch = ServingEpochLease<MockStore, TestCurrentness, TestSnapshot>;

type TestCapture = ServingEpochCapture<TestCurrentness, TestSnapshot>;

fn checkpoint() -> PrivateQueryCheckpoint {
    PrivateQueryCheckpoint::new(
        PrivateNetwork::Mainnet,
        2_000_000,
        BLOCK_HASH_DISPLAY,
        1,
        9,
        3,
    )
}

fn address(byte: u8) -> [u8; ADDRESS_KEY_BYTES] {
    [byte; ADDRESS_KEY_BYTES]
}

fn utxo(byte: u8, height: u32) -> TransparentUtxo {
    TransparentUtxo::new(
        [byte; TXID_BYTES],
        u32::from(byte),
        100,
        height,
        &[0x51; 25],
        SCRIPT_BYTES,
    )
    .expect("test transparent script fits the fixed record")
}

fn store(store_reads: usize, entries: &[(usize, TransparentUtxo)]) -> MockStore {
    MockStore {
        slots_per_key: store_reads,
        entries: entries
            .iter()
            .map(|(slot, record)| (*slot, address(1), record.clone()))
            .collect(),
        failing_read: None,
        reads: 0,
        opened_for: None,
    }
}

fn profile(
    store_reads: usize,
    recent_snapshot_slots: usize,
    replay_policy: CompiledReplayPolicy,
) -> PrivacyProfile {
    PrivacyProfile {
        profile_id: folded(
            &[0x55],
            &[
                &store_reads.to_be_bytes(),
                &recent_snapshot_slots.to_be_bytes(),
                &replay_policy.transaction_capacity.to_be_bytes(),
                &replay_policy.expiry_bucket_width_seconds.to_be_bytes(),
                &replay_policy
                    .garbage_collection_interval_seconds
                    .to_be_bytes(),
            ],
        ),
        store_reads,
        recent_snapshot_slots,
        response_slots: RESPONSE_SLOTS,
        envelope_bytes: ENVELOPE_BYTES,
        continuation_ttl_seconds: TOKEN_TTL_SECONDS,
        timeout_bucket_millis: 3,
        replay_policy,
    }
}

fn replay_policy() -> CompiledReplayPolicy {
    CompiledReplayPolicy {
        transaction_capacity: 16,
        expiry_bucket_width_seconds: 60,
        garbage_collection_interval_seconds: 60,
    }
}

fn runtime_shape(store_reads: usize) -> TestShape {
    runtime_shape_with_recent_snapshot_slots(store_reads, RECENT_SNAPSHOT_SLOTS)
}

fn runtime_shape_with_recent_snapshot_slots(store_reads: usize, slots: usize) -> TestShape {
    CompiledQueryShape::new(profile(store_reads, slots, replay_policy())).unwrap()
}

fn lease_identity(key_epoch: u64, session_binding: [u8; 32]) -> SecurityLeaseIdentity {
    SecurityLeaseIdentity::new(
        key_epoch,
        session_binding,
        SERVICE_NAMESPACE_ID,
        OWNER_GENERATION,
        SECURITY_EPOCH_BINDING,
    )
    .unwrap()
}

fn envelopes() -> TestEnvelopes {
    TestEnvelopes {
        request_key: REQUEST_KEY,
        response_key: RESPONSE_KEY,
        opens: 0,
        seals: 0,
        open_unavailable: false,
        seal_unavailable: false,
    }
}

fn security_lease(
    shape: &TestShape,
    key_epoch: u64,
    session_binding: [u8; 32],
    replay_guard: CountingReplayGuard,
    material_source: DeterministicMaterialSource,
) -> TestLease {
    ActiveSecurityLease::mint(
        shape,
        lease_identity(key_epoch, session_binding),
        InstanceSource::new().next_instance().unwrap(),
        envelopes(),
        CountingTokenProtector::new(),
        replay_guard,
        material_source,
    )
}

fn dummies() -> Vec<RecentSlot> {
    vec![RecentSlot::Dummy; RECENT_SNAPSHOT_SLOTS]
}

fn lineage() -> Lineage {
    Lineage::at_generation(recent_snapshot_identity(&checkpoint()), 1)
}

/// A generation that was sealed at the block of an identity.
fn projection_at(
    identity: &RecentSnapshotIdentity,
    store: MockStore,
) -> FinalizedProjection<MockStore> {
    FinalizedProjection {
        store,
        checkpoint: PublicChainCheckpoint {
            height: identity.finalized_height,
            block_hash: identity.finalized_hash_display,
        },
    }
}

fn capture(snapshot: TestSnapshot) -> TestCapture {
    let identity = snapshot.lineage.identity();
    let boundary = 1;
    TestCapture {
        observation: ServingEpochObservation { identity, boundary },
        recent_snapshot: snapshot,
        currentness: TestCurrentness {
            state: Rc::new(RefCell::new(CurrentnessState {
                identity,
                boundary,
                available: true,
                calls: 0,
                published: true,
                clear_after_comparison: false,
            })),
        },
    }
}

fn serving_epoch(snapshot: TestSnapshot, engine: MockStore) -> TestEpoch {
    let captured = capture(snapshot);
    let projection = projection_at(&captured.observation.identity, engine);
    TestEpoch::pin(projection, captured).ok().unwrap()
}

fn runtime_over(
    epoch: TestEpoch,
    shape: TestShape,
    slots: usize,
    checkpoint: PrivateQueryCheckpoint,
    lease: TestLease,
) -> Result<TestRuntime, UniformExternalFailure> {
    TestRuntime::new(epoch, shape, slots, checkpoint, lease)
}

fn runtime_with_snapshot_and_session(
    store: MockStore,
    store_reads: usize,
    snapshot: TestSnapshot,
    session_binding: [u8; 32],
    replay_guard: CountingReplayGuard,
    material_source: DeterministicMaterialSource,
) -> TestRuntime {
    let shape = runtime_shape(store_reads);
    let lease = security_lease(
        &shape,
        checkpoint().key_epoch,
        session_binding,
        replay_guard,
        material_source,
    );
    runtime_over(
        serving_epoch(snapshot, store),
        shape,
        RECENT_SNAPSHOT_SLOTS,
        checkpoint(),
        lease,
    )
    .ok()
    .unwrap()
}

fn runtime_with_snapshot(
    store: MockStore,
    store_reads: usize,
    snapshot: TestSnapshot,
    replay_guard: CountingReplayGuard,
    material_source: DeterministicMaterialSource,
) -> TestRuntime {
    runtime_with_snapshot_and_session(
        store,
        store_reads,
        snapshot,
        SESSION_BINDING,
        replay_guard,
        material_source,
    )
}

fn runtime_with_components(
    store: MockStore,
    store_reads: usize,
    replay_guard: CountingReplayGuard,
    material_source: DeterministicMaterialSource,
) -> TestRuntime {
    runtime_with_snapshot(
        store,
        store_reads,
        TestSnapshot::new(lineage(), dummies()),
        replay_guard,
        material_source,
    )
}

fn runtime(store_reads: usize, entries: &[(usize, TransparentUtxo)]) -> TestRuntime {
    runtime_with_components(
        store(store_reads, entries),
        store_reads,
        CountingReplayGuard::available(),
        DeterministicMaterialSource::at(100),
    )
}

fn runtime_with_recent(
    store_reads: usize,
    entries: &[(usize, TransparentUtxo)],
    recent_slots: Vec<RecentSlot>,
) -> TestRuntime {
    runtime_with_snapshot(
        store(store_reads, entries),
        store_reads,
        TestSnapshot::new(lineage(), recent_slots),
        CountingReplayGuard::available(),
        DeterministicMaterialSource::at(100),
    )
}

fn finalized_epoch(
    generation: u64,
    map_identity: impl FnOnce(RecentSnapshotIdentity) -> RecentSnapshotIdentity,
) -> (TestEpoch, RecentSnapshotIdentity, usize) {
    let store_reads = 4;
    let owner_identity = recent_snapshot_identity(&checkpoint());
    let snapshot = TestSnapshot::new(
        Lineage::at_generation(map_identity(owner_identity), generation),
        dummies(),
    );
    (
        serving_epoch(snapshot, store(store_reads, &[])),
        owner_identity,
        store_reads,
    )
}

/// A projection of the current checkpoint and a capture of a generation for it.
fn refresh_parts(generation: u64) -> (FinalizedProjection<MockStore>, TestCapture) {
    let identity = recent_snapshot_identity(&checkpoint());
    let snapshot = TestSnapshot::new(Lineage::at_generation(identity, generation), dummies());
    (
        projection_at(&identity, store(4, &[])),
        capture(snapshot),
    )
}

fn finalized_runtime_from_epoch(
    epoch: TestEpoch,
    shape: TestShape,
    replay_guard: CountingReplayGuard,
    material_source: DeterministicMaterialSource,
) -> Result<TestRuntime, FinalizedRuntimeBuildError> {
    let key_epoch = epoch.identity().key_epoch;
    let lease = security_lease(
        &shape,
        key_epoch,
        SESSION_BINDING,
        replay_guard,
        material_source,
    );
    TestRuntime::from_finalized_serving_epoch(
        epoch,
        shape,
        RECENT_SNAPSHOT_SLOTS,
        lease,
    )
}

fn finalized_runtime() -> TestRuntime {
    let (epoch, _, store_reads) = finalized_epoch(1, |identity| identity);
    finalized_runtime_from_epoch(
        epoch,
        runtime_shape(store_reads),
        CountingReplayGuard::available(),
        DeterministicMaterialSource::at(100),
    )
    .ok()
    .unwrap()
}

fn request_envelope(
    runtime: &TestRuntime,
    checkpoint: PrivateQueryCheckpoint,
    query: UtxoQuery,
    continuation: Option<ContinuationToken>,
    nonce_byte: u8,
) -> [u8; ENVELOPE_BYTES] {
    runtime.codec.encode_request(
        &checkpoint,
        &query,
        &continuation,
        [nonce_byte; ENVELOPE_NONCE_BYTES],
        &runtime.security.envelope_protector,
    )
}

fn finalized_request(runtime: &TestRuntime, nonce_byte: u8) -> [u8; ENVELOPE_BYTES] {
    request_envelope(
        runtime,
        runtime.epoch.as_ref().unwrap().checkpoint,
        UtxoQuery::new(address(0xee), 0),
        None,
        nonce_byte,
    )
}

fn epoch_checkpoint(runtime: &TestRuntime) -> PrivateQueryCheckpoint {
    runtime.epoch.as_ref().unwrap().checkpoint
}

fn generation(runtime: &TestRuntime) -> u64 {
    runtime
        .epoch
        .as_ref()
        .unwrap()
        .recent_snapshot
        .lineage
        .generation
}

fn currentness(runtime: &TestRuntime) -> TestCurrentness {
    runtime
        .epoch
        .as_ref()
        .unwrap()
        .serving_epoch
        .currentness
        .clone()
}

fn observations(currentness: &TestCurrentness) -> usize {
    currentness.state.borrow().calls
}

fn store_reads(runtime: &TestRuntime) -> usize {
    runtime.epoch.as_ref().unwrap().engine.reads
}

fn snapshot_reads(runtime: &TestRuntime) -> usize {
    runtime.epoch.as_ref().unwrap().recent_snapshot.read_calls
}

fn query_digest(runtime: &TestRuntime, query: &UtxoQuery) -> [u8; 32] {
    runtime.codec.bound_query_digest(
        query,
        runtime.epoch.as_ref().unwrap().recent_snapshot_binding_digest,
    )
}

fn token_context(runtime: &TestRuntime) -> ContinuationProtectionContext {
    runtime
        .codec
        .continuation_protection_context(&checkpoint())
        .unwrap()
}

fn security_state(runtime: &TestRuntime) -> (bool, bool, usize) {
    let currentness = &runtime.security.currentness;
    (
        currentness.active.is_some(),
        currentness.available,
        currentness.observations,
    )
}

#[derive(Debug, Clone, Copy, PartialEq, Eq)]
struct ProcessCounters {
    envelope_opens: usize,
    envelope_seals: usize,
    token_opens: usize,
    token_seals: usize,
    replay_calls: usize,
    replay_claims: usize,
    replay_reads: usize,
    replay_writes: usize,
    material_calls: usize,
}

impl ProcessCounters {
    fn capture(runtime: &TestRuntime) -> Self {
        let security = &runtime.security;
        Self {
            envelope_opens: security.envelope_protector.opens,
            envelope_seals: security.envelope_protector.seals,
            token_opens: security.token_protector.opens,
            token_seals: security.token_protector.seals,
            replay_calls: security.replay_guard.calls,
            replay_claims: security.replay_guard.real_claim_attempts,
            replay_reads: security.replay_guard.logical_reads,
            replay_writes: security.replay_guard.logical_writes,
            material_calls: security.material_source.calls,
        }
    }
}

#[derive(Debug, Clone, Copy, PartialEq, Eq)]
struct RuntimeCounters {
    process: ProcessCounters,
    serving_epoch_observations: usize,
    recent_snapshot_reads: usize,
    store_reads: usize,
}

impl RuntimeCounters {
    fn capture(runtime: &TestRuntime) -> Self {
        Self {
            process: ProcessCounters::capture(runtime),
            serving_epoch_observations: observations(&currentness(runtime)),
            recent_snapshot_reads: snapshot_reads(runtime),
            store_reads: store_reads(runtime),
        }
    }

    fn assert_complete_round(&self, runtime: &TestRuntime) {
        self.assert_fixed_work_counts(runtime, 1);
    }

    fn assert_fixed_work_before_release_failure(&self, runtime: &TestRuntime) {
        self.assert_fixed_work_counts(runtime, 0);
    }

    fn assert_fixed_work_counts(&self, runtime: &TestRuntime, expected_observations: usize) {
        let now = Self::capture(runtime);
        assert_eq!(now.process.envelope_opens - self.process.envelope_opens, 1);
        assert_eq!(now.process.envelope_seals - self.process.envelope_seals, 1);
        assert_eq!(now.process.token_opens - self.process.token_opens, 1);
        assert_eq!(now.process.token_seals - self.process.token_seals, 1);
        assert_eq!(now.process.replay_calls - self.process.replay_calls, 1);
        assert_eq!(now.process.replay_reads - self.process.replay_reads, 1);
        assert_eq!(now.process.replay_writes - self.process.replay_writes, 1);
        assert_eq!(now.process.material_calls - self.process.material_calls, 1);
        assert_eq!(
            now.serving_epoch_observations - self.serving_epoch_observations,
            expected_observations
        );
        assert_eq!(
            now.recent_snapshot_reads - self.recent_snapshot_reads,
            RECENT_SNAPSHOT_SLOTS
        );
        assert_eq!(
            now.store_reads - self.store_reads,
            runtime.shape.profile().store_reads()
        );
    }
}

fn decode_round(
    runtime: &TestRuntime,
    round: &RuntimeRound<ENVELOPE_BYTES>,
) -> (AccessTrace, PrivateQueryResponse) {
    (
        *round.trace(),
        runtime
            .codec
            .decode_response(round.envelope(), &runtime.security.envelope_protector)
            .unwrap(),
    )
}

fn handle_and_decode(
    runtime: &mut TestRuntime,
    request: &[u8; ENVELOPE_BYTES],
) -> (AccessTrace, PrivateQueryResponse) {
    let counters = RuntimeCounters::capture(runtime);
    let round = runtime.handle(request).ok().unwrap();
    counters.assert_complete_round(runtime);
    let decoded = decode_round(runtime, &round);
    assert_complete_runtime_trace(&decoded.0, runtime.shape.profile().store_reads());
    decoded
}

fn assert_complete_runtime_trace(trace: &AccessTrace, expected_store_reads: usize) {
    assert_eq!(trace.runtime_phases, RUNTIME_PHASE_COUNT);
    assert_eq!(trace.store_reads, expected_store_reads);
    assert_eq!(trace.recent_snapshot_reads, RECENT_SNAPSHOT_SLOTS);
    assert_eq!(trace.replay_reads, 1);
    assert_eq!(trace.replay_writes, 1);
    assert_eq!(trace.request_frames, 1);
    assert_eq!(trace.response_frames, 1);
    assert_eq!(trace.request_bytes, ENVELOPE_BYTES);
    assert_eq!(trace.response_bytes, ENVELOPE_BYTES);
    assert_eq!(trace.completion, CompletionShape::UnaryFixedEnvelope);
}

fn real_count(page: &UtxoResultPage) -> usize {
    page.slots.iter().filter(|slot| slot.is_occupied()).count()
}

fn txids(pages: &[&UtxoResultPage]) -> Vec<[u8; TXID_BYTES]> {
    let mut found = Vec::new();
    for page in pages {
        for slot in &page.slots {
            if let ResultSlot::Occupied(record) = slot {
                found.push(*record.txid());
            }
        }
    }
    found
}

fn assert_late_serving_epoch_failure_completes_fixed_work(
    runtime: &mut TestRuntime,
    request: &[u8; ENVELOPE_BYTES],
) {
    let counters = RuntimeCounters::capture(runtime);
    assert!(matches!(
        runtime.handle(request),
        Err(UniformExternalFailure)
    ));
    counters.assert_complete_round(runtime);
    assert!(!runtime.healthy);
}

fn uniform_failure<T>(result: Result<T, UniformExternalFailure>) -> UniformExternalFailure {
    match result {
        Ok(_) => panic!("protection failure cannot produce a runtime round"),
        Err(failure) => failure,
    }
}

fn assert_protection_failure_completes_fixed_work(
    entries: &[(usize, TransparentUtxo)],
    make_unavailable: impl FnOnce(&mut TestRuntime),
) {
    let mut runtime = runtime(4, entries);
    let request = request_envelope(
        &runtime,
        checkpoint(),
        UtxoQuery::new(address(1), 0),
        None,
        1,
    );
    let counters = RuntimeCounters::capture(&runtime);
    make_unavailable(&mut runtime);

    let failure = uniform_failure(runtime.handle(&request));

    assert_eq!(failure.message(), "private query failed");
    counters.assert_fixed_work_before_release_failure(&runtime);
    assert_eq!(runtime.security.replay_guard.real_claim_attempts, 0);
    assert!(!runtime.healthy);
}

fn run_initial(
    entries: &[(usize, TransparentUtxo)],
    query: UtxoQuery,
) -> (AccessTrace, PrivateQueryResponse) {
    let mut runtime = runtime(4, entries);
    let request = request_envelope(&runtime, checkpoint(), query, None, 1);
    handle_and_decode(&mut runtime, &request)
}

fn assert_invalid_continuation(response: &PrivateQueryResponse) {
    assert_eq!(response.page.outcome(), QueryOutcome::InvalidContinuation);
    assert!(response.page.is_all_dummy());
    assert!(!response.has_more);
    assert!(response.continuation.is_none());
}

fn finalized_pending_round() -> (TestRuntime, ResponseReleaseGate, TestPendingRound) {
    let mut runtime = finalized_runtime();
    let request = finalized_request(&runtime, 1);
    let mut response_release = ResponseReleaseGate::new();
    let pending =
        handle_finalized_runtime_round(&mut runtime, false, &mut response_release, &request)
            .ok()
            .unwrap();
    (runtime, response_release, pending)
}

fn release_and_decode(
    runtime: &mut TestRuntime,
    response_release: &mut ResponseReleaseGate,
    pending: &mut TestPendingRound,
) -> PrivateQueryResponse {
    let envelope = pending
        .try_release_bytes(response_release, &mut runtime.security.currentness)
        .ok()
        .unwrap();
    runtime
        .codec
        .decode_response(&envelope, &runtime.security.envelope_protector)
        .unwrap()
}

fn finalized_handle_and_decode(
    runtime: &mut TestRuntime,
    request: &[u8; ENVELOPE_BYTES],
) -> PrivateQueryResponse {
    let round = runtime.handle(request).ok().unwrap();
    runtime
        .codec
        .decode_response(round.envelope(), &runtime.security.envelope_protector)
        .unwrap()
}

fn assert_terminal_security_release_failure(
    runtime: &mut TestRuntime,
    response_release: &mut ResponseReleaseGate,
    pending: &mut TestPendingRound,
    expected_security_observations: usize,
) {
    let currentness = currentness(runtime);
    let serving_observations = observations(&currentness);
    let (active, _, security_observations) = security_state(runtime);
    assert!(active);

    for _attempt in 0..2 {
        assert!(matches!(
            pending.try_release_bytes(response_release, &mut runtime.security.currentness),
            Err(UniformExternalFailure)
        ));
        assert_eq!(observations(&currentness), serving_observations + 1);
        assert_eq!(
            security_state(runtime),
            (
                false,
                false,
                security_observations + expected_security_observations
            )
        );
        assert!(response_release.is_closed());
    }
}

fn assert_pending_release_rejects_currentness_change(change: impl FnOnce(&mut CurrentnessState)) {
    let mut runtime = finalized_runtime();
    let request = finalized_request(&runtime, 1);
    let mut response_release = ResponseReleaseGate::new();
    let currentness = currentness(&runtime);
    let before = observations(&currentness);
    let mut pending =
        handle_finalized_runtime_round(&mut runtime, false, &mut response_release, &request)
            .ok()
            .unwrap();
    assert_eq!(observations(&currentness), before);

    change(&mut currentness.state.borrow_mut());
    assert!(matches!(
        pending.try_release_bytes(&mut response_release, &mut runtime.security.currentness),
        Err(UniformExternalFailure)
    ));
    assert_eq!(observations(&currentness), before + 1);
    assert!(response_release.is_closed());
    pending.release(&mut response_release);
    assert!(response_release.is_closed());
}

fn advanced_identity() -> RecentSnapshotIdentity {
    let current = checkpoint();
    RecentSnapshotIdentity::new(
        current.network.tag(),
        current.height + 1,
        current.block_hash_display,
        current.schema_version,
        current.projection_epoch,
        current.key_epoch,
    )
}

fn owner() -> TestOwner {
    let shape = runtime_shape(4);
    TestOwner::new(
        PrivateNetwork::Mainnet,
        1,
        7,
        shape,
        RECENT_SNAPSHOT_SLOTS,
        security_lease(
            &shape,
            9,
            SESSION_BINDING,
            CountingReplayGuard::available(),
            DeterministicMaterialSource::at(100),
        ),
    )
    .ok()
    .unwrap()
}

#[test]
fn xchacha20_runtime_round_trips_continuations_and_rejects_tampering() {
    let entries = [(0, utxo(1, 10)), (1, utxo(2, 11)), (2, utxo(3, 12))];
    let mut runtime = runtime(4, &entries);
    let query = UtxoQuery::new(address(1), 0);

    let mut wrong_request_protector = runtime.security.envelope_protector.clone();
    wrong_request_protector.request_key = [0xa1; 32];
    let wrong_key_request = runtime.codec.encode_request(
        &checkpoint(),
        &query,
        &None,
        [0x11; ENVELOPE_NONCE_BYTES],
        &wrong_request_protector,
    );
    let wrong_key_failure = uniform_failure(runtime.handle(&wrong_key_request));
    assert_eq!(wrong_key_failure.message(), "private query failed");
    assert_eq!(runtime.security.material_source.calls, 0);
    assert_eq!(runtime.security.replay_guard.calls, 0);
    assert!(runtime.healthy);

    let initial_request = request_envelope(&runtime, checkpoint(), query, None, 0x12);
    let (initial_trace, initial_response) = handle_and_decode(&mut runtime, &initial_request);
    assert_eq!(
        initial_response.page.outcome(),
        QueryOutcome::ResultBudgetExceeded
    );
    let continuation = initial_response
        .continuation
        .expect("capped page carries one protected token");

    let mut tampered_token_bytes = *continuation.opaque_bytes();
    tampered_token_bytes[0] ^= 1;
    let tampered_token = ContinuationToken::from_opaque_bytes(tampered_token_bytes);
    let tampered_request =
        request_envelope(&runtime, checkpoint(), query, Some(tampered_token), 0x13);
    let (tampered_trace, tampered_response) = handle_and_decode(&mut runtime, &tampered_request);
    assert_eq!(tampered_trace, initial_trace);
    assert_eq!(
        tampered_response.page.outcome(),
        QueryOutcome::InvalidContinuation
    );
    assert!(tampered_response.page.is_all_dummy());
    assert_eq!(runtime.security.replay_guard.real_claim_attempts, 0);

    let continued_request =
        request_envelope(&runtime, checkpoint(), query, Some(continuation), 0x14);
    let (continued_trace, continued_response) = handle_and_decode(&mut runtime, &continued_request);
    assert_eq!(continued_trace, initial_trace);
    assert_eq!(continued_response.page.outcome(), QueryOutcome::Complete);
    assert_eq!(real_count(&continued_response.page), 1);
    assert_eq!(txids(&[&continued_response.page]), vec![[3; TXID_BYTES]]);

    let replay_request = request_envelope(&runtime, checkpoint(), query, Some(continuation), 0x15);
    let (replay_trace, replay_response) = handle_and_decode(&mut runtime, &replay_request);
    assert_eq!(replay_trace, initial_trace);
    assert_eq!(
        replay_response.page.outcome(),
        QueryOutcome::InvalidContinuation
    );
    assert!(replay_response.page.is_all_dummy());
    assert_eq!(runtime.security.material_source.calls, 4);
    let replay_guard = &runtime.security.replay_guard;
    assert_eq!(replay_guard.calls, 4);
    assert_eq!(replay_guard.real_claim_attempts, 2);
    assert_eq!(replay_guard.claimed.iter().flatten().count(), 1);
}

#[test]
fn finalized_runtime_owner_is_unready_before_refresh_and_stops_once() {
    let mut owner = owner();

    assert!(matches!(
        owner.query_page([0; ENVELOPE_BYTES]),
        Err(PrivateQueryUnavailable)
    ));
    assert!(owner.runtime.healthy);
    assert!(owner.runtime.epoch.is_none());
    assert!(!owner.controller.published);
    assert_eq!(
        owner.debug_text(),
        "FinalizedRuntimeOwner { ..REDACTED.. }"
    );
    let error = FinalizedRuntimeOwnerError;
    assert_eq!(
        error.debug_text(),
        "FinalizedRuntimeOwnerError { ..REDACTED.. }"
    );
    assert_eq!(error.message(), "private-query runtime owner unavailable");

    let counters = ProcessCounters::capture(&owner.runtime);
    owner.shutdown().unwrap();
    owner.shutdown().unwrap();
    assert!(owner.stopped);
    assert!(owner.runtime.epoch.is_none());
    assert!(!owner.controller.published);
    assert!(matches!(
        owner.handle(&[0; ENVELOPE_BYTES]),
        Err(UniformExternalFailure)
    ));
    assert_eq!(ProcessCounters::capture(&owner.runtime), counters);
}

#[test]
fn owner_drop_closes_detached_response_permit() {
    let mut owner = owner();
    let permit = owner.response_release.begin_response().ok().unwrap();
    assert_eq!(
        owner.response_release.debug_text(),
        "ResponseReleaseGate { ..REDACTED.. }"
    );
    assert_eq!(
        permit.debug_text(),
        "ResponseReleasePermit { ..REDACTED.. }"
    );

    owner.close();
    assert_eq!(owner.response_release.state, ResponseReleaseState::Closed);
    permit.release(&mut owner.response_release);
    assert_eq!(owner.response_release.state, ResponseReleaseState::Closed);
}

#[test]
fn pending_release_rejects_late_identity_and_boundary_changes() {
    assert_pending_release_rejects_currentness_change(|currentness| {
        currentness.identity = advanced_identity();
    });
    assert_pending_release_rejects_currentness_change(|currentness| {
        currentness.boundary += 1;
    });
}

#[test]
fn owner_close_before_release_skips_observation_and_fails_closed() {
    let (mut runtime, mut response_release, mut pending) = finalized_pending_round();
    let currentness = currentness(&runtime);
    let before = observations(&currentness);
    response_release.close();

    assert!(matches!(
        pending.try_release_bytes(&mut response_release, &mut runtime.security.currentness),
        Err(UniformExternalFailure)
    ));
    assert_eq!(observations(&currentness), before);
    pending.release(&mut response_release);
    assert!(response_release.is_closed());
}

#[test]
fn owner_close_during_release_prevents_authorization() {
    let (mut runtime, mut response_release, mut pending) = finalized_pending_round();
    let currentness = currentness(&runtime);
    let before = observations(&currentness);

    assert!(pending.begin_release(&mut response_release, &mut runtime.security.currentness));
    let observed = pending.serving_release_witness.observe_and_match();
    assert!(observed.is_ok());
    response_release.close();
    assert!(matches!(
        pending.complete_release(
            &mut response_release,
            &mut runtime.security.currentness,
            observed
        ),
        Err(UniformExternalFailure)
    ));
    assert!(matches!(
        pending.try_release_bytes(&mut response_release, &mut runtime.security.currentness),
        Err(UniformExternalFailure)
    ));
    assert_eq!(observations(&currentness), before + 1);
    assert!(response_release.is_closed());
    pending.release(&mut response_release);
    assert!(response_release.is_closed());
}

#[test]
fn security_release_unavailability_is_terminal_and_cached() {
    let (mut runtime, mut response_release, mut pending) = finalized_pending_round();
    runtime.security.currentness.available = false;

    assert_terminal_security_release_failure(&mut runtime, &mut response_release, &mut pending, 0);
}

#[test]
fn security_release_rejects_equal_value_epoch_remint() {
    let (mut runtime, mut response_release, mut pending) = finalized_pending_round();
    runtime.security.currentness.active = Some(SecurityEpochTag::new(
        SECURITY_EPOCH_BINDING,
        EPOCH_INSTANCE + 1,
    ));

    assert_terminal_security_release_failure(&mut runtime, &mut response_release, &mut pending, 1);
}

#[test]
fn security_release_rejects_each_cross_round_authority() {
    let (mut runtime, mut response_release, mut pending) = finalized_pending_round();
    let other_round = SecurityRoundCapture::new(&runtime.security.security_epoch_tag, 0x77);
    pending.round.replay_commit_authority = ReplayCommitAuthority::new(&other_round);
    assert_terminal_security_release_failure(&mut runtime, &mut response_release, &mut pending, 1);

    let (mut runtime, mut response_release, mut pending) = finalized_pending_round();
    let other_round = SecurityRoundCapture::new(&runtime.security.security_epoch_tag, 0x77);
    pending.round.reservation_authority = RoundReservationAuthority::new(
        &other_round,
        pending.round.now_unix_seconds,
        pending.round.response_nonce,
        pending.round.token_nonce,
    );
    assert_terminal_security_release_failure(&mut runtime, &mut response_release, &mut pending, 1);
}

#[test]
fn pending_response_blocks_lifecycle_before_mutation() {
    let mut runtime = finalized_runtime();
    let request = finalized_request(&runtime, 1);
    let mut response_release = ResponseReleaseGate::new();
    let mut stopped = false;
    let currentness = currentness(&runtime);
    let before = observations(&currentness);

    let mut pending =
        handle_finalized_runtime_round(&mut runtime, stopped, &mut response_release, &request)
            .ok()
            .unwrap();
    assert_eq!(observations(&currentness), before);
    let encoded = pending.round.envelope;
    assert!(
        pending.try_release_bytes(&mut response_release, &mut runtime.security.currentness)
            == Ok(encoded)
    );
    assert_eq!(observations(&currentness), before + 1);
    let response = release_and_decode(&mut runtime, &mut response_release, &mut pending);
    assert_eq!(observations(&currentness), before + 1);
    assert_eq!(response.page.outcome(), QueryOutcome::Complete);
    assert_eq!(
        pending.trace().completion,
        CompletionShape::UnaryFixedEnvelope
    );
    assert_eq!(
        pending.debug_text(),
        "PendingRuntimeRound { ..REDACTED.. }"
    );
    let counters = ProcessCounters::capture(&runtime);
    let served = generation(&runtime);

    assert!(matches!(
        handle_finalized_runtime_round(&mut runtime, stopped, &mut response_release, &request),
        Err(UniformExternalFailure)
    ));
    assert_eq!(ProcessCounters::capture(&runtime), counters);

    assert!(matches!(
        response_release.begin_refresh(),
        Err(FinalizedRuntimeOwnerError)
    ));
    assert_eq!(generation(&runtime), served);
    assert_eq!(ProcessCounters::capture(&runtime), counters);

    assert_eq!(
        stop_finalized_runtime_after_responses(&mut runtime, &mut stopped, &mut response_release),
        Err(FinalizedRuntimeOwnerError)
    );
    assert!(!stopped);
    assert_eq!(generation(&runtime), served);
    assert_eq!(ProcessCounters::capture(&runtime), counters);

    response_release.close();
    assert_eq!(response_release.state, ResponseReleaseState::Closed);
    pending.release(&mut response_release);
    assert_eq!(response_release.state, ResponseReleaseState::Closed);
}

#[test]
fn dropping_pending_response_allows_generation_two_replacement() {
    let (mut runtime, mut response_release, pending) = finalized_pending_round();
    let checkpoint = epoch_checkpoint(&runtime);
    let query = UtxoQuery::new(address(0xee), 0);
    let first_currentness = currentness(&runtime);
    assert!(!response_release.is_idle());
    assert_eq!(observations(&first_currentness), 0);
    let counters = ProcessCounters::capture(&runtime);
    pending.release(&mut response_release);
    assert!(response_release.is_idle());
    assert_eq!(observations(&first_currentness), 0);

    let (replacement, _, _) = finalized_epoch(2, |identity| identity);
    let permit = response_release.begin_refresh().ok().unwrap();
    replace_finalized_runtime_epoch_from(&mut runtime, false, Ok(replacement)).unwrap();
    permit.release(&mut response_release);
    assert!(response_release.is_idle());
    assert_eq!(generation(&runtime), 2);
    assert_eq!(ProcessCounters::capture(&runtime), counters);

    let request = request_envelope(&runtime, checkpoint, query, None, 2);
    let replacement_currentness = currentness(&runtime);
    let mut replacement_pending =
        handle_finalized_runtime_round(&mut runtime, false, &mut response_release, &request)
            .ok()
            .unwrap();
    assert_eq!(observations(&replacement_currentness), 0);
    let response = release_and_decode(&mut runtime, &mut response_release, &mut replacement_pending);
    assert_eq!(observations(&replacement_currentness), 1);
    assert_eq!(response.page.outcome(), QueryOutcome::Complete);
    replacement_pending.release(&mut response_release);
    assert!(response_release.is_idle());
    assert!(runtime.healthy);
}

#[test]
fn protected_failure_retires_security_and_makes_pending_response_unreleasable() {
    let mut runtime = finalized_runtime();
    let lineage = runtime.epoch.as_ref().unwrap().recent_snapshot.lineage;
    runtime.epoch.as_mut().unwrap().recent_snapshot =
        TestSnapshot::failing(lineage, dummies(), 0);
    let request = finalized_request(&runtime, 1);
    let mut response_release = ResponseReleaseGate::new();

    let mut pending =
        handle_finalized_runtime_round(&mut runtime, false, &mut response_release, &request)
            .ok()
            .unwrap();
    assert!(!runtime.healthy);
    assert!(!response_release.is_idle());
    assert!(retire_unhealthy_finalized_runtime_after_round(
        &mut runtime,
        true,
        &mut response_release,
    ));
    assert!(runtime.epoch.is_none());
    assert!(response_release.is_closed());
    assert!(!security_state(&runtime).0);
    assert!(matches!(
        pending.try_release_bytes(&mut response_release, &mut runtime.security.currentness),
        Err(UniformExternalFailure)
    ));

    pending.release(&mut response_release);
    assert!(response_release.is_closed());
}

#[test]
fn unavailable_release_closes_admission_and_keeps_shutdown_available() {
    let mut runtime = finalized_runtime();
    let request = finalized_request(&runtime, 1);
    let mut response_release = ResponseReleaseGate::new();
    let currentness = currentness(&runtime);
    currentness.state.borrow_mut().available = false;
    let before = observations(&currentness);

    let mut pending =
        handle_finalized_runtime_round(&mut runtime, false, &mut response_release, &request)
            .ok()
            .unwrap();
    assert_eq!(observations(&currentness), before);
    assert!(runtime.healthy);
    assert!(security_state(&runtime).0);
    let counters = ProcessCounters::capture(&runtime);

    assert!(matches!(
        pending.try_release_bytes(&mut response_release, &mut runtime.security.currentness),
        Err(UniformExternalFailure)
    ));
    assert_eq!(observations(&currentness), before + 1);
    assert!(response_release.is_closed());
    assert!(!security_state(&runtime).0);
    assert!(matches!(
        pending.try_release_bytes(&mut response_release, &mut runtime.security.currentness),
        Err(UniformExternalFailure)
    ));
    assert_eq!(observations(&currentness), before + 1);
    pending.release(&mut response_release);
    assert!(response_release.is_closed());
    assert_eq!(ProcessCounters::capture(&runtime), counters);
    assert!(matches!(
        handle_finalized_runtime_round(&mut runtime, false, &mut response_release, &request),
        Err(UniformExternalFailure)
    ));
    assert!(matches!(
        response_release.begin_refresh(),
        Err(FinalizedRuntimeOwnerError)
    ));
    assert_eq!(ProcessCounters::capture(&runtime), counters);

    let mut stopped = false;
    stop_finalized_runtime_after_responses(&mut runtime, &mut stopped, &mut response_release)
        .unwrap();
    stop_finalized_runtime_after_responses(&mut runtime, &mut stopped, &mut response_release)
        .unwrap();
    assert!(stopped);
    assert!(response_release.is_closed());
}

#[test]
fn cancelled_refresh_reopens_admission_without_stale_fallback() {
    let mut runtime = finalized_runtime();
    let request = finalized_request(&runtime, 1);
    let mut response_release = ResponseReleaseGate::new();
    let counters = ProcessCounters::capture(&runtime);

    let permit = response_release.begin_refresh().ok().unwrap();
    assert_eq!(retire_before_replacement(&mut runtime, false), Ok(()));
    assert!(response_release.is_refreshing());
    permit.release(&mut response_release);

    assert!(response_release.is_idle());
    assert!(runtime.epoch.is_none());
    assert!(runtime.healthy);
    assert!(matches!(
        handle_finalized_runtime_round(&mut runtime, false, &mut response_release, &request),
        Err(UniformExternalFailure)
    ));
    assert!(response_release.is_idle());
    assert_eq!(ProcessCounters::capture(&runtime), counters);

    let (replacement, _, _) = finalized_epoch(2, |identity| identity);
    let permit = response_release.begin_refresh().ok().unwrap();
    replace_finalized_runtime_epoch_from(&mut runtime, false, Ok(replacement)).unwrap();
    permit.release(&mut response_release);
    assert!(response_release.is_idle());
    assert_eq!(generation(&runtime), 2);
    assert_eq!(ProcessCounters::capture(&runtime), counters);
}

#[test]
fn ready_finalized_runtime_stop_is_idempotent_and_prevents_reactivation() {
    let mut runtime = finalized_runtime();
    let request = finalized_request(&runtime, 1);
    let response = finalized_handle_and_decode(&mut runtime, &request);
    assert_eq!(response.page.outcome(), QueryOutcome::Complete);
    let counters = ProcessCounters::capture(&runtime);

    let mut stopped = false;
    stop_finalized_runtime(&mut runtime, &mut stopped);
    stop_finalized_runtime(&mut runtime, &mut stopped);
    assert!(stopped);
    assert!(runtime.epoch.is_none());
    assert!(runtime.healthy);
    assert!(matches!(
        runtime.handle(&request),
        Err(UniformExternalFailure)
    ));
    assert_eq!(ProcessCounters::capture(&runtime), counters);

    let (replacement, _, _) = finalized_epoch(2, |identity| identity);
    assert_eq!(
        replace_finalized_runtime_epoch_from(&mut runtime, stopped, Ok(replacement)),
        Err(FinalizedRuntimeOwnerError)
    );
    assert!(runtime.epoch.is_none());
    assert_eq!(ProcessCounters::capture(&runtime), counters);
}

#[test]
fn finalized_epoch_factory_derives_checkpoint_and_retains_runtime_state() {
    let (epoch, identity, store_reads) = finalized_epoch(1, |identity| identity);
    let mut runtime = finalized_runtime_from_epoch(
        epoch,
        runtime_shape(store_reads),
        CountingReplayGuard::available(),
        DeterministicMaterialSource::at(100),
    )
    .ok()
    .unwrap();

    let checkpoint = epoch_checkpoint(&runtime);
    assert_eq!(checkpoint.network.tag(), identity.network_tag);
    assert_eq!(checkpoint.height, identity.finalized_height);
    assert_eq!(
        checkpoint.block_hash_display,
        identity.finalized_hash_display
    );
    assert_eq!(checkpoint.schema_version, identity.schema_version);
    assert_eq!(checkpoint.projection_epoch, identity.projection_epoch);
    assert_eq!(checkpoint.key_epoch, identity.key_epoch);

    for nonce_byte in [1, 2] {
        let request = finalized_request(&runtime, nonce_byte);
        let response = finalized_handle_and_decode(&mut runtime, &request);
        assert_eq!(response.page.outcome(), QueryOutcome::Complete);
    }
    assert_eq!(runtime.security.material_source.calls, 2);
    assert!(runtime.healthy);
}

#[test]
fn pending_finalized_epoch_replacement_retires_before_await_without_state_reset() {
    let mut runtime = finalized_runtime();
    let request = finalized_request(&runtime, 1);
    let response = finalized_handle_and_decode(&mut runtime, &request);
    assert_eq!(response.page.outcome(), QueryOutcome::Complete);
    let counters = ProcessCounters::capture(&runtime);

    assert_eq!(retire_before_replacement(&mut runtime, false), Ok(()));

    assert!(runtime.epoch.is_none());
    assert!(runtime.healthy);
    assert_eq!(ProcessCounters::capture(&runtime), counters);
    assert!(matches!(
        runtime.handle(&request),
        Err(UniformExternalFailure)
    ));
    assert_eq!(ProcessCounters::capture(&runtime), counters);
}

#[test]
fn finalized_epoch_replacement_preserves_process_state_and_monotonic_health() {
    let (first_epoch, _, store_reads) = finalized_epoch(1, |identity| identity);
    let key_epoch = first_epoch.identity().key_epoch;
    let shape = runtime_shape(store_reads);
    let mut runtime = TestRuntime::without_epoch(
        shape,
        RECENT_SNAPSHOT_SLOTS,
        security_lease(
            &shape,
            key_epoch,
            SESSION_BINDING,
            CountingReplayGuard::available(),
            DeterministicMaterialSource::at(100),
        ),
    )
    .ok()
    .unwrap();
    runtime
        .activate_finalized_serving_epoch(first_epoch)
        .unwrap();
    let checkpoint = epoch_checkpoint(&runtime);
    let query = UtxoQuery::new(address(0xee), 0);
    let first_binding_digest = runtime
        .epoch
        .as_ref()
        .unwrap()
        .recent_snapshot_binding_digest;
    assert_eq!(generation(&runtime), 1);

    let first_request = request_envelope(&runtime, checkpoint, query, None, 1);
    let first_response = finalized_handle_and_decode(&mut runtime, &first_request);
    assert_eq!(first_response.page.outcome(), QueryOutcome::Complete);
    assert_eq!(runtime.security.replay_guard.calls, 1);
    assert_eq!(runtime.security.material_source.calls, 1);

    let context = token_context(&runtime);
    let old_state = ContinuationState {
        version: CONTINUATION_VERSION,
        profile_id: *shape.profile().profile_id(),
        query_digest: query_digest(&runtime, &query),
        projection_epoch: checkpoint.projection_epoch,
        cursor: 1,
        expires_at_unix_seconds: 160,
        nonce: [0x41; ENVELOPE_NONCE_BYTES],
    };
    let old_continuation = runtime
        .security
        .token_protector
        .issue(&old_state, &context)
        .unwrap();
    let counters_before_replacement = ProcessCounters::capture(&runtime);

    let (replacement_epoch, _, _) = finalized_epoch(2, |identity| identity);
    replace_finalized_runtime_epoch_from(&mut runtime, false, Ok(replacement_epoch)).unwrap();
    assert_eq!(generation(&runtime), 2);
    assert_ne!(
        runtime
            .epoch
            .as_ref()
            .unwrap()
            .recent_snapshot_binding_digest,
        first_binding_digest
    );
    assert!(epoch_checkpoint(&runtime) == checkpoint);
    assert_eq!(
        ProcessCounters::capture(&runtime),
        counters_before_replacement
    );

    let old_continuation_request =
        request_envelope(&runtime, checkpoint, query, Some(old_continuation), 2);
    let old_continuation_response =
        finalized_handle_and_decode(&mut runtime, &old_continuation_request);
    assert_eq!(
        old_continuation_response.page.outcome(),
        QueryOutcome::InvalidContinuation
    );
    assert!(old_continuation_response.page.is_all_dummy());

    let replacement_request = request_envelope(&runtime, checkpoint, query, None, 3);
    let replacement_response = finalized_handle_and_decode(&mut runtime, &replacement_request);
    assert_eq!(replacement_response.page.outcome(), QueryOutcome::Complete);
    assert_eq!(runtime.security.replay_guard.calls, 3);
    assert_eq!(runtime.security.material_source.calls, 3);
    assert!(runtime.healthy);

    currentness(&runtime).state.borrow_mut().available = false;
    let unavailable_request = request_envelope(&runtime, checkpoint, query, None, 4);
    assert!(matches!(
        runtime.handle(&unavailable_request),
        Err(UniformExternalFailure)
    ));
    assert!(!runtime.healthy);
    assert_eq!(runtime.security.replay_guard.calls, 4);
    assert_eq!(runtime.security.material_source.calls, 4);

    let (recovery_epoch, _, _) = finalized_epoch(3, |identity| identity);
    assert_eq!(
        replace_finalized_runtime_epoch_from(&mut runtime, false, Ok(recovery_epoch)),
        Err(FinalizedRuntimeOwnerError)
    );
    assert!(runtime.epoch.is_none());
    assert!(matches!(
        runtime.handle(&unavailable_request),
        Err(UniformExternalFailure)
    ));
    assert_eq!(runtime.security.replay_guard.calls, 4);
    assert_eq!(runtime.security.material_source.calls, 4);
}

#[test]
fn failed_finalized_epoch_replacements_never_fall_back_and_can_recover() {
    let mut runtime = finalized_runtime();
    let request = finalized_request(&runtime, 1);
    let counters = ProcessCounters::capture(&runtime);

    let unavailable: Result<TestEpoch, FinalizedRuntimeOwnerError> =
        Err(FinalizedRuntimeOwnerError);
    assert_eq!(
        replace_finalized_runtime_epoch_from(&mut runtime, false, unavailable),
        Err(FinalizedRuntimeOwnerError)
    );
    assert!(runtime.epoch.is_none());
    assert!(runtime.healthy);
    assert!(matches!(
        runtime.handle(&request),
        Err(UniformExternalFailure)
    ));
    assert_eq!(ProcessCounters::capture(&runtime), counters);

    let (invalid_epoch, _, _) = finalized_epoch(1, |identity| {
        RecentSnapshotIdentity::new(
            u8::MAX,
            identity.finalized_height,
            identity.finalized_hash_display,
            identity.schema_version,
            identity.projection_epoch,
            identity.key_epoch,
        )
    });
    assert_eq!(
        replace_finalized_runtime_epoch_from(&mut runtime, false, Ok(invalid_epoch)),
        Err(FinalizedRuntimeOwnerError)
    );
    assert!(runtime.epoch.is_none());
    assert!(runtime.healthy);
    assert!(matches!(
        runtime.handle(&request),
        Err(UniformExternalFailure)
    ));
    assert_eq!(ProcessCounters::capture(&runtime), counters);

    let (recovery_epoch, _, _) = finalized_epoch(2, |identity| identity);
    replace_finalized_runtime_epoch_from(&mut runtime, false, Ok(recovery_epoch)).unwrap();
    assert_eq!(generation(&runtime), 2);
    assert_eq!(ProcessCounters::capture(&runtime), counters);

    let response = finalized_handle_and_decode(&mut runtime, &request);
    assert_eq!(response.page.outcome(), QueryOutcome::Complete);
    assert!(runtime.healthy);
    assert_eq!(runtime.security.replay_guard.calls, 1);
    assert_eq!(runtime.security.material_source.calls, 1);
}

#[test]
fn finalized_epoch_factory_rejects_unknown_network_without_identifiers() {
    let (epoch, _, store_reads) = finalized_epoch(1, |identity| {
        RecentSnapshotIdentity::new(
            u8::MAX,
            identity.finalized_height,
            identity.finalized_hash_display,
            identity.schema_version,
            identity.projection_epoch,
            identity.key_epoch,
        )
    });
    let result = finalized_runtime_from_epoch(
        epoch,
        runtime_shape(store_reads),
        CountingReplayGuard::available(),
        DeterministicMaterialSource::at(100),
    );
    let error = match result {
        Ok(_) => panic!("unknown internal network tag must reject runtime construction"),
        Err(error) => error,
    };
    assert_eq!(error, FinalizedRuntimeBuildError);
    assert_eq!(
        error.debug_text(),
        "FinalizedRuntimeBuildError { ..REDACTED.. }"
    );
    assert_eq!(
        error.message(),
        "finalized private-query runtime unavailable"
    );
}

#[test]
fn finalized_epoch_factory_coarsens_store_shape_mismatch() {
    let (epoch, _, store_reads) = finalized_epoch(1, |identity| identity);
    let mismatched_reads = store_reads
        .checked_sub(1)
        .expect("finalized store fixture must expose at least one slot");
    let result = finalized_runtime_from_epoch(
        epoch,
        runtime_shape(mismatched_reads),
        CountingReplayGuard::available(),
        DeterministicMaterialSource::at(100),
    );
    assert!(matches!(result, Err(FinalizedRuntimeBuildError)));
}

#[test]
fn finalized_epoch_factory_coarsens_recent_snapshot_shape_mismatch() {
    let (epoch, _, store_reads) = finalized_epoch(1, |identity| identity);
    let mismatched_slots = RECENT_SNAPSHOT_SLOTS
        .checked_sub(1)
        .expect("recent-snapshot fixture must expose at least one slot");
    let result = finalized_runtime_from_epoch(
        epoch,
        runtime_shape_with_recent_snapshot_slots(store_reads, mismatched_slots),
        CountingReplayGuard::available(),
        DeterministicMaterialSource::at(100),
    );
    assert!(matches!(result, Err(FinalizedRuntimeBuildError)));
}

#[test]
fn stale_serving_epoch_discards_the_encoded_response_after_complete_fixed_work() {
    let query = UtxoQuery::new(address(1), 0);

    let mut finalized_advanced = runtime(4, &[(0, utxo(1, 10))]);
    let request = request_envelope(&finalized_advanced, checkpoint(), query, None, 1);
    currentness(&finalized_advanced)
        .state
        .borrow_mut()
        .identity = advanced_identity();
    assert_late_serving_epoch_failure_completes_fixed_work(&mut finalized_advanced, &request);

    let mut equal_value_boundary_replacement = runtime(4, &[(0, utxo(1, 10))]);
    let request = request_envelope(
        &equal_value_boundary_replacement,
        checkpoint(),
        query,
        None,
        2,
    );
    currentness(&equal_value_boundary_replacement)
        .state
        .borrow_mut()
        .boundary += 1;
    assert_late_serving_epoch_failure_completes_fixed_work(
        &mut equal_value_boundary_replacement,
        &request,
    );

    let mut unavailable = runtime(4, &[(0, utxo(1, 10))]);
    let request = request_envelope(&unavailable, checkpoint(), query, None, 3);
    currentness(&unavailable).state.borrow_mut().available = false;
    assert_late_serving_epoch_failure_completes_fixed_work(&mut unavailable, &request);

    let mut in_flight_refresh = runtime(4, &[(0, utxo(1, 10))]);
    let request = request_envelope(&in_flight_refresh, checkpoint(), query, None, 4);
    currentness(&in_flight_refresh)
        .state
        .borrow_mut()
        .clear_after_comparison = true;
    assert_late_serving_epoch_failure_completes_fixed_work(&mut in_flight_refresh, &request);
}

#[test]
fn secret_and_protected_error_cases_have_identical_complete_runtime_traces() {
    let key = address(1);
    let (baseline, hit) = run_initial(&[(0, utxo(1, 10))], UtxoQuery::new(key, 0));
    assert_eq!(hit.page.outcome(), QueryOutcome::Complete);
    assert_eq!(real_count(&hit.page), 1);

    let cases = [
        run_initial(&[], UtxoQuery::new(address(9), 0)),
        run_initial(&[(0, utxo(1, 10))], UtxoQuery::new(key, 11)),
        run_initial(
            &[(0, utxo(1, 10)), (1, utxo(2, 11))],
            UtxoQuery::new(key, 0),
        ),
        run_initial(
            &[(0, utxo(1, 10)), (1, utxo(2, 11)), (2, utxo(3, 12))],
            UtxoQuery::new(key, 0),
        ),
        run_initial(&[(3, utxo(4, 13))], UtxoQuery::new(key, 0)),
        run_initial(
            &[(0, utxo(1, 10))],
            UtxoQuery::from_untrusted_address_key(&[7; 31], 0),
        ),
    ];
    let expected_outcomes = [
        QueryOutcome::Complete,
        QueryOutcome::Complete,
        QueryOutcome::Complete,
        QueryOutcome::ResultBudgetExceeded,
        QueryOutcome::Complete,
        QueryOutcome::InvalidDomain,
    ];
    for ((trace, response), expected_outcome) in cases.iter().zip(expected_outcomes) {
        assert_eq!(*trace, baseline);
        assert_eq!(response.page.outcome(), expected_outcome);
    }

    let mut recent_hit = runtime_with_recent(
        4,
        &[],
        vec![
            created(key, utxo(5, 14)),
            RecentSlot::Dummy,
            RecentSlot::Dummy,
            RecentSlot::Dummy,
        ],
    );
    let request = request_envelope(&recent_hit, checkpoint(), UtxoQuery::new(key, 0), None, 7);
    let (recent_trace, recent_response) = handle_and_decode(&mut recent_hit, &request);
    assert_eq!(recent_trace, baseline);
    assert_eq!(recent_response.page.outcome(), QueryOutcome::Complete);
    assert_eq!(real_count(&recent_response.page), 1);
}

/// Inspects a token as a round at second 102 would, with a fresh guard.
fn inspect_token(
    runtime: &TestRuntime,
    query: &UtxoQuery,
    token: ContinuationToken,
    cursor_limit: u64,
) -> ContinuationUse {
    let expectation = ContinuationExpectation {
        version: CONTINUATION_VERSION,
        profile_id: *runtime.shape.profile().profile_id(),
        query_digest: query_digest(runtime, query),
        projection_epoch: checkpoint().projection_epoch,
        now_unix_seconds: 102,
        cursor_limit,
    };
    let inspection = CountingTokenProtector::new().inspect_optional(
        &Some(token),
        &token_context(runtime),
        &expectation,
        runtime.security.replay_namespace(),
        [0; ENVELOPE_NONCE_BYTES],
    );
    let security_round = SecurityRoundCapture::new(&runtime.security.security_epoch_tag, 0x66);
    let mut replay_guard = CountingReplayGuard::available();
    let (continuation_use, replay_commit_authority) = inspection
        .finish_replay(&security_round, &mut replay_guard)
        .into_parts();
    let replay_commit_authority =
        replay_commit_authority.expect("fixture replay commit must return an authority");
    assert!(
        replay_commit_authority.matches(&runtime.security.security_epoch_tag, &security_round)
    );
    continuation_use
}

#[test]
fn combined_store_and_recent_cursor_pages_without_duplicates() {
    let key = address(1);
    let entries = [(0, utxo(1, 10)), (1, utxo(2, 11)), (2, utxo(3, 12))];
    let mut runtime = runtime_with_recent(
        4,
        &entries,
        vec![
            created(key, utxo(4, 13)),
            created(key, utxo(5, 14)),
            RecentSlot::Dummy,
            RecentSlot::Dummy,
        ],
    );
    let query = UtxoQuery::new(key, 0);

    let first_request = request_envelope(&runtime, checkpoint(), query, None, 1);
    let (first_trace, first) = handle_and_decode(&mut runtime, &first_request);
    let first_token = first
        .continuation
        .expect("first mixed-layer page carries a token");

    let second_request = request_envelope(&runtime, checkpoint(), query, Some(first_token), 2);
    let (second_trace, second) = handle_and_decode(&mut runtime, &second_request);
    let second_token = second
        .continuation
        .expect("second mixed-layer page carries a token");

    assert_eq!(
        inspect_token(&runtime, &query, second_token, 8),
        ContinuationUse::Continue {
            cursor: 5,
            expires_at_unix_seconds: 160,
        }
    );

    let third_request = request_envelope(&runtime, checkpoint(), query, Some(second_token), 3);
    let (third_trace, third) = handle_and_decode(&mut runtime, &third_request);
    assert_eq!(first_trace, second_trace);
    assert_eq!(first_trace, third_trace);
    assert_eq!(first.page.outcome(), QueryOutcome::ResultBudgetExceeded);
    assert_eq!(second.page.outcome(), QueryOutcome::ResultBudgetExceeded);
    assert_eq!(third.page.outcome(), QueryOutcome::Complete);
    assert_eq!(
        txids(&[&first.page, &second.page, &third.page]),
        vec![
            [1; TXID_BYTES],
            [2; TXID_BYTES],
            [3; TXID_BYTES],
            [4; TXID_BYTES],
            [5; TXID_BYTES]
        ]
    );
    assert_eq!(snapshot_reads(&runtime), 3 * RECENT_SNAPSHOT_SLOTS);
}

#[test]
fn snapshot_content_drift_completes_fixed_work_and_latches_readiness() {
    let key = address(1);
    let entries = [(0, utxo(1, 10)), (1, utxo(2, 11)), (2, utxo(3, 12))];
    let mut runtime = runtime(4, &entries);
    let query = UtxoQuery::new(key, 0);

    let first_request = request_envelope(&runtime, checkpoint(), query, None, 1);
    let (baseline, first) = handle_and_decode(&mut runtime, &first_request);
    let token = first
        .continuation
        .expect("capped first page carries a continuation");
    runtime.epoch.as_mut().unwrap().recent_snapshot.slots[0] = created(key, utxo(4, 13));

    let second_request = request_envelope(&runtime, checkpoint(), query, Some(token), 2);
    let (drift_trace, drift_response) = handle_and_decode(&mut runtime, &second_request);
    assert_eq!(drift_trace, baseline);
    assert_eq!(
        drift_response.page.outcome(),
        QueryOutcome::ProjectionNotReady
    );
    assert!(drift_response.page.is_all_dummy());
    assert!(!runtime.healthy);
    assert_eq!(snapshot_reads(&runtime), 2 * RECENT_SNAPSHOT_SLOTS);
    assert_eq!(store_reads(&runtime), 8);
}

#[test]
fn snapshot_identity_drift_completes_fixed_work_and_latches_readiness() {
    let key = address(1);
    let mut runtime = runtime(4, &[(0, utxo(1, 10))]);
    runtime
        .epoch
        .as_mut()
        .unwrap()
        .recent_snapshot
        .lineage
        .finalized_height += 1;

    let request = request_envelope(&runtime, checkpoint(), UtxoQuery::new(key, 0), None, 1);
    let (trace, response) = handle_and_decode(&mut runtime, &request);
    assert_eq!(trace.store_reads, 4);
    assert_eq!(trace.recent_snapshot_reads, RECENT_SNAPSHOT_SLOTS);
    assert_eq!(response.page.outcome(), QueryOutcome::ProjectionNotReady);
    assert!(response.page.is_all_dummy());
    assert!(!runtime.healthy);
}

#[test]
fn snapshot_lineage_drift_completes_fixed_work_and_latches_readiness() {
    let key = address(1);
    let mut runtime = runtime(4, &[(0, utxo(1, 10))]);
    runtime
        .epoch
        .as_mut()
        .unwrap()
        .recent_snapshot
        .lineage
        .generation += 1;

    let request = request_envelope(&runtime, checkpoint(), UtxoQuery::new(key, 0), None, 1);
    let (trace, response) = handle_and_decode(&mut runtime, &request);
    assert_eq!(trace.store_reads, 4);
    assert_eq!(trace.recent_snapshot_reads, RECENT_SNAPSHOT_SLOTS);
    assert_eq!(response.page.outcome(), QueryOutcome::ProjectionNotReady);
    assert!(response.page.is_all_dummy());
    assert!(!runtime.healthy);
}

#[test]
fn malformed_snapshot_completes_fixed_work_and_latches_readiness() {
    let key = address(1);
    let output = utxo(4, 13);
    let mut runtime = runtime_with_recent(
        4,
        &[],
        vec![
            created(key, output.clone()),
            created(key, output),
            RecentSlot::Dummy,
            RecentSlot::Dummy,
        ],
    );
    let query = UtxoQuery::new(key, 0);
    let request = request_envelope(&runtime, checkpoint(), query, None, 1);
    let (trace, response) = handle_and_decode(&mut runtime, &request);

    assert_eq!(trace.store_reads, 4);
    assert_eq!(trace.recent_snapshot_reads, RECENT_SNAPSHOT_SLOTS);
    assert_eq!(response.page.outcome(), QueryOutcome::ProjectionNotReady);
    assert!(response.page.is_all_dummy());
    assert!(!runtime.healthy);
    assert_eq!(snapshot_reads(&runtime), RECENT_SNAPSHOT_SLOTS);
}

#[test]
fn continuation_rejects_different_snapshot_contents_across_runtime_lifecycles() {
    let key = address(1);
    let entries = [(0, utxo(1, 10)), (1, utxo(2, 11)), (2, utxo(3, 12))];
    let query = UtxoQuery::new(key, 0);
    let mut issuer = runtime(4, &entries);
    let initial_request = request_envelope(&issuer, checkpoint(), query, None, 1);
    let (baseline, initial_response) = handle_and_decode(&mut issuer, &initial_request);
    let token = initial_response
        .continuation
        .expect("capped issuer page carries a continuation");

    let mut changed = runtime_with_recent(
        4,
        &entries,
        vec![
            created(key, utxo(4, 13)),
            RecentSlot::Dummy,
            RecentSlot::Dummy,
            RecentSlot::Dummy,
        ],
    );
    let continued_request = request_envelope(&changed, checkpoint(), query, Some(token), 2);
    let (changed_trace, changed_response) = handle_and_decode(&mut changed, &continued_request);
    assert_eq!(changed_trace, baseline);
    assert_eq!(
        changed_response.page.outcome(),
        QueryOutcome::InvalidContinuation
    );
    assert!(changed_response.page.is_all_dummy());
}

#[test]
fn continuation_rejects_new_generation_with_identical_snapshot_contents() {
    let key = address(1);
    let entries = [(0, utxo(1, 10)), (1, utxo(2, 11)), (2, utxo(3, 12))];
    let query = UtxoQuery::new(key, 0);
    let mut issuer = runtime(4, &entries);
    let initial_request = request_envelope(&issuer, checkpoint(), query, None, 1);
    let (baseline, initial_response) = handle_and_decode(&mut issuer, &initial_request);
    let token = initial_response
        .continuation
        .expect("capped issuer page carries a continuation");

    let next_lineage = Lineage {
        generation: generation(&issuer) + 1,
        ..lineage()
    };
    let mut changed = runtime_with_snapshot(
        store(4, &entries),
        4,
        TestSnapshot::new(next_lineage, dummies()),
        CountingReplayGuard::available(),
        DeterministicMaterialSource::at(101),
    );
    let continued_request = request_envelope(&changed, checkpoint(), query, Some(token), 2);
    let (changed_trace, changed_response) = handle_and_decode(&mut changed, &continued_request);
    assert_eq!(changed_trace, baseline);
    assert_eq!(
        changed_response.page.outcome(),
        QueryOutcome::InvalidContinuation
    );
    assert!(changed_response.page.is_all_dummy());
}

#[test]
fn continuation_pages_use_absolute_combined_cursors_without_duplicates() {
    let entries = [
        (0, utxo(1, 10)),
        (2, utxo(2, 11)),
        (4, utxo(3, 12)),
        (7, utxo(4, 13)),
        (9, utxo(5, 14)),
    ];
    let mut runtime = runtime(10, &entries);
    let query = UtxoQuery::new(address(1), 0);

    let first_request = request_envelope(&runtime, checkpoint(), query, None, 1);
    let (first_trace, first) = handle_and_decode(&mut runtime, &first_request);
    assert_eq!(first.page.outcome(), QueryOutcome::ResultBudgetExceeded);
    let first_token = first
        .continuation
        .expect("capped first page carries one fixed token");

    let second_request = request_envelope(&runtime, checkpoint(), query, Some(first_token), 2);
    let (second_trace, second) = handle_and_decode(&mut runtime, &second_request);
    assert_eq!(second.page.outcome(), QueryOutcome::ResultBudgetExceeded);
    let second_token = second
        .continuation
        .expect("capped second page carries one fixed token");

    assert_eq!(
        inspect_token(&runtime, &query, second_token, 14),
        ContinuationUse::Continue {
            cursor: 9,
            expires_at_unix_seconds: 160,
        }
    );

    let third_request = request_envelope(&runtime, checkpoint(), query, Some(second_token), 3);
    let (third_trace, third) = handle_and_decode(&mut runtime, &third_request);
    assert_eq!(third.page.outcome(), QueryOutcome::Complete);
    assert!(third.continuation.is_none());
    assert_eq!(first_trace, second_trace);
    assert_eq!(first_trace, third_trace);
    assert_eq!(
        txids(&[&first.page, &second.page, &third.page]),
        vec![
            [1; TXID_BYTES],
            [2; TXID_BYTES],
            [3; TXID_BYTES],
            [4; TXID_BYTES],
            [5; TXID_BYTES]
        ]
    );
    assert_eq!(runtime.security.replay_guard.real_claim_attempts, 2);
}

#[test]
fn invalid_expired_mismatched_and_replayed_tokens_finish_the_same_schedule() {
    let entries = [(0, utxo(1, 10)), (1, utxo(2, 11)), (2, utxo(3, 12))];
    let query = UtxoQuery::new(address(1), 0);

    let mut replay_runtime = runtime(4, &entries);
    let initial_request = request_envelope(&replay_runtime, checkpoint(), query, None, 1);
    let (_, initial) = handle_and_decode(&mut replay_runtime, &initial_request);
    let token = initial
        .continuation
        .expect("capped initial page carries a token");
    let valid_request = request_envelope(&replay_runtime, checkpoint(), query, Some(token), 2);
    let (baseline, valid) = handle_and_decode(&mut replay_runtime, &valid_request);
    assert_eq!(valid.page.outcome(), QueryOutcome::Complete);
    let replay_request = request_envelope(&replay_runtime, checkpoint(), query, Some(token), 3);
    let (replay_trace, replay) = handle_and_decode(&mut replay_runtime, &replay_request);
    assert_eq!(replay_trace, baseline);
    assert_invalid_continuation(&replay);

    let mut tampered_bytes = *token.opaque_bytes();
    tampered_bytes[17] ^= 0x80;
    let tampered = ContinuationToken::from_opaque_bytes(tampered_bytes);
    let mut tampered_runtime = runtime(4, &entries);
    let tampered_request =
        request_envelope(&tampered_runtime, checkpoint(), query, Some(tampered), 4);
    let (tampered_trace, tampered_response) =
        handle_and_decode(&mut tampered_runtime, &tampered_request);
    assert_eq!(tampered_trace, baseline);
    assert_invalid_continuation(&tampered_response);

    let mut expired_runtime = runtime_with_components(
        store(4, &entries),
        4,
        CountingReplayGuard::available(),
        DeterministicMaterialSource::at(160),
    );
    let expired_request = request_envelope(&expired_runtime, checkpoint(), query, Some(token), 5);
    let (expired_trace, expired) = handle_and_decode(&mut expired_runtime, &expired_request);
    assert_eq!(expired_trace, baseline);
    assert_invalid_continuation(&expired);

    let mut mismatch_runtime = runtime(4, &entries);
    let mismatch_request = request_envelope(
        &mismatch_runtime,
        checkpoint(),
        UtxoQuery::new(address(1), 11),
        Some(token),
        6,
    );
    let (mismatch_trace, mismatch) = handle_and_decode(&mut mismatch_runtime, &mismatch_request);
    assert_eq!(mismatch_trace, baseline);
    assert_invalid_continuation(&mismatch);

    let mut cursor_runtime = runtime(4, &entries);
    let cursor_state = ContinuationState {
        version: CONTINUATION_VERSION,
        profile_id: *cursor_runtime.shape.profile().profile_id(),
        query_digest: query_digest(&cursor_runtime, &query),
        projection_epoch: checkpoint().projection_epoch,
        cursor: 0,
        expires_at_unix_seconds: 160,
        nonce: [0x71; ENVELOPE_NONCE_BYTES],
    };
    let cursor_context = token_context(&cursor_runtime);
    let cursor_token = CountingTokenProtector::new()
        .issue(&cursor_state, &cursor_context)
        .unwrap();
    let cursor_request =
        request_envelope(&cursor_runtime, checkpoint(), query, Some(cursor_token), 7);
    let (cursor_trace, cursor_response) = handle_and_decode(&mut cursor_runtime, &cursor_request);
    assert_eq!(cursor_trace, baseline);
    assert_invalid_continuation(&cursor_response);

    for (wrong_profile, wrong_epoch, nonce_byte) in [(true, false, 8_u8), (false, true, 9_u8)] {
        let mut binding_runtime = runtime(4, &entries);
        let mut profile_id = *binding_runtime.shape.profile().profile_id();
        if wrong_profile {
            profile_id[0] ^= 1;
        }
        let projection_epoch = checkpoint().projection_epoch + u64::from(wrong_epoch);
        let binding_state = ContinuationState {
            version: CONTINUATION_VERSION,
            profile_id,
            query_digest: query_digest(&binding_runtime, &query),
            projection_epoch,
            cursor: 2,
            expires_at_unix_seconds: 160,
            nonce: [nonce_byte; ENVELOPE_NONCE_BYTES],
        };
        let binding_context = token_context(&binding_runtime);
        let binding_token = CountingTokenProtector::new()
            .issue(&binding_state, &binding_context)
            .unwrap();
        let binding_request = request_envelope(
            &binding_runtime,
            checkpoint(),
            query,
            Some(binding_token),
            nonce_byte,
        );
        let (binding_trace, binding_response) =
            handle_and_decode(&mut binding_runtime, &binding_request);
        assert_eq!(binding_trace, baseline);
        assert_invalid_continuation(&binding_response);
    }
}

#[test]
fn continuation_tokens_are_bound_to_the_codec_session() {
    let entries = [(0, utxo(1, 10)), (2, utxo(2, 11)), (3, utxo(3, 12))];
    let query = UtxoQuery::new(address(1), 0);
    let mut issuer = runtime(4, &entries);
    let initial_request = request_envelope(&issuer, checkpoint(), query, None, 1);
    let (baseline, initial) = handle_and_decode(&mut issuer, &initial_request);
    let token = initial
        .continuation
        .expect("capped issuer response carries a session-bound token");

    let mut other_session = runtime_with_snapshot_and_session(
        store(4, &entries),
        4,
        TestSnapshot::new(lineage(), dummies()),
        [0x33; 32],
        CountingReplayGuard::available(),
        DeterministicMaterialSource::at(101),
    );
    let request = request_envelope(&other_session, checkpoint(), query, Some(token), 2);
    let (trace, response) = handle_and_decode(&mut other_session, &request);

    assert_eq!(trace, baseline);
    assert_invalid_continuation(&response);
    assert_eq!(other_session.security.replay_guard.real_claim_attempts, 0);
}

/// Under the same keys a request of another session does not authenticate, and nothing
/// private is touched by it.
#[test]
fn request_envelopes_are_bound_to_the_codec_session() {
    let query = UtxoQuery::new(address(1), 0);
    let issuer = runtime(4, &[]);
    let request = request_envelope(&issuer, checkpoint(), query, None, 1);
    let mut other_session = runtime_with_snapshot_and_session(
        store(4, &[]),
        4,
        TestSnapshot::new(lineage(), dummies()),
        [0x33; 32],
        CountingReplayGuard::available(),
        DeterministicMaterialSource::at(101),
    );
    assert_eq!(other_session.codec.session_binding, [0x33; 32]);
    assert_eq!(
        other_session.codec.profile_id,
        *other_session.shape.profile().profile_id()
    );

    let failure = uniform_failure(other_session.handle(&request));
    assert_eq!(failure.message(), "private query failed");
    assert_eq!(other_session.security.material_source.calls, 0);
    assert_eq!(other_session.security.replay_guard.calls, 0);
    assert!(other_session.healthy);

    let own = request_envelope(&other_session, checkpoint(), query, None, 1);
    assert!(other_session.handle(&own).is_ok());
}

/// Without a codec for the lease's session there is no runtime and no owner.
#[test]
fn a_session_without_a_codec_gets_no_runtime() {
    let shape = runtime_shape(4);
    let lease = || {
        security_lease(
            &shape,
            checkpoint().key_epoch,
            UNOPENABLE_SESSION_BINDING,
            CountingReplayGuard::available(),
            DeterministicMaterialSource::at(100),
        )
    };
    assert!(matches!(
        TestRuntime::without_epoch(shape, RECENT_SNAPSHOT_SLOTS, lease()),
        Err(UniformExternalFailure)
    ));
    let (epoch, _, _) = finalized_epoch(1, |identity| identity);
    assert!(runtime_over(epoch, shape, RECENT_SNAPSHOT_SLOTS, checkpoint(), lease()).is_err());
    let (epoch, _, _) = finalized_epoch(1, |identity| identity);
    assert!(TestRuntime::from_finalized_serving_epoch(
        epoch,
        shape,
        RECENT_SNAPSHOT_SLOTS,
        lease()
    )
    .is_err());
    assert!(TestOwner::new(
        PrivateNetwork::Mainnet,
        1,
        9,
        shape,
        RECENT_SNAPSHOT_SLOTS,
        lease()
    )
    .is_err());
}

/// A controller names its schema version and its epochs.
#[test]
fn a_controller_without_a_schema_version_or_an_epoch_is_refused() {
    let controller = |schema_version, projection_epoch, key_epoch| {
        RecentSnapshotRefreshController::new(
            PrivateNetwork::Testnet,
            schema_version,
            projection_epoch,
            key_epoch,
        )
    };
    let made = controller(1, 9, 3).unwrap();
    assert_eq!(made.network, PrivateNetwork::Testnet);
    assert_eq!(
        (made.schema_version, made.projection_epoch, made.key_epoch),
        (1, 9, 3)
    );
    assert!(!made.published);
    assert_eq!(controller(0, 9, 3), Err(FinalizedRuntimeOwnerError));
    assert_eq!(controller(1, 0, 3), Err(FinalizedRuntimeOwnerError));
    assert_eq!(controller(1, 9, 0), Err(FinalizedRuntimeOwnerError));
}

/// A refresh pins the projection's own store and the captured snapshot, and refuses a
/// capture that disagrees with the owner or with the projection in any one value.
#[test]
fn a_refresh_pins_only_what_agrees() {
    let shape = runtime_shape(4);
    let mut owner = TestOwner::new(
        PrivateNetwork::Mainnet,
        1,
        9,
        shape,
        RECENT_SNAPSHOT_SLOTS,
        security_lease(
            &shape,
            checkpoint().key_epoch,
            SESSION_BINDING,
            CountingReplayGuard::available(),
            DeterministicMaterialSource::at(100),
        ),
    )
    .ok()
    .unwrap();

    let current = recent_snapshot_identity(&checkpoint());
    let mut others = [current; 4];
    others[0].network_tag ^= 1;
    others[1].schema_version += 1;
    others[2].projection_epoch += 1;
    others[3].key_epoch += 1;
    for other in others {
        let permit = owner.begin_refresh().ok().unwrap();
        let captured = capture(TestSnapshot::new(Lineage::at_generation(other, 1), dummies()));
        let projection = projection_at(&other, store(4, &[]));
        assert_eq!(
            owner.complete_refresh(permit, projection, Ok(captured)),
            Err(FinalizedRuntimeOwnerError)
        );
        assert!(owner.runtime.epoch.is_none());
        assert!(!owner.controller.published);
    }

    let mut elsewhere = [current; 2];
    elsewhere[0].finalized_height += 1;
    elsewhere[1].finalized_hash_display = [0x77; 32];
    for block in elsewhere {
        let permit = owner.begin_refresh().ok().unwrap();
        let (_, captured) = refresh_parts(1);
        let projection = projection_at(&block, store(4, &[]));
        assert_eq!(
            owner.complete_refresh(permit, projection, Ok(captured)),
            Err(FinalizedRuntimeOwnerError)
        );
        assert!(owner.runtime.epoch.is_none());
    }

    let permit = owner.begin_refresh().ok().unwrap();
    let (_, captured) = refresh_parts(5);
    let projection = projection_at(&current, store(4, &[(2, utxo(9, 10))]));
    owner
        .complete_refresh(permit, projection, Ok(captured))
        .unwrap();
    let epoch = owner.runtime.epoch.as_ref().unwrap();
    assert_eq!(epoch.engine.entries.len(), 1);
    assert_eq!(epoch.engine.opened_for, Some(*shape.profile().profile_id()));
    assert_eq!(epoch.recent_snapshot.lineage.generation, 5);
    assert!(epoch.checkpoint == checkpoint());
    assert!(owner.controller.published);
}

#[test]
fn duplicate_request_nonce_ignores_query_and_does_not_consume_continuation() {
    let entries = [(0, utxo(1, 10)), (2, utxo(2, 11)), (3, utxo(3, 12))];
    let continuation_query = UtxoQuery::new(address(1), 0);
    let different_query = UtxoQuery::new(address(2), 0);
    let mut runtime = runtime(4, &entries);

    let initial_request = request_envelope(&runtime, checkpoint(), continuation_query, None, 1);
    let (_, initial_response) = handle_and_decode(&mut runtime, &initial_request);
    let continuation = initial_response
        .continuation
        .expect("capped initial page carries a continuation");

    let marker_request = request_envelope(&runtime, checkpoint(), different_query, None, 2);
    let (_, marker_response) = handle_and_decode(&mut runtime, &marker_request);
    assert_eq!(marker_response.page.outcome(), QueryOutcome::Complete);

    let duplicate_request = request_envelope(
        &runtime,
        checkpoint(),
        continuation_query,
        Some(continuation),
        2,
    );
    let (_, duplicate_response) = handle_and_decode(&mut runtime, &duplicate_request);
    assert_eq!(
        duplicate_response.page.outcome(),
        QueryOutcome::ProjectionNotReady
    );
    assert!(runtime.healthy);
    let replay_guard = &runtime.security.replay_guard;
    assert_eq!(replay_guard.real_claim_attempts, 0);
    assert!(replay_guard.claimed.iter().all(Option::is_none));

    let fresh_request = request_envelope(
        &runtime,
        checkpoint(),
        continuation_query,
        Some(continuation),
        3,
    );
    let (_, fresh_response) = handle_and_decode(&mut runtime, &fresh_request);
    assert_eq!(fresh_response.page.outcome(), QueryOutcome::Complete);
    let replay_guard = &runtime.security.replay_guard;
    assert_eq!(replay_guard.real_claim_attempts, 1);
    assert_eq!(replay_guard.claimed.iter().flatten().count(), 1);
    assert_eq!(replay_guard.claimed_requests.iter().flatten().count(), 3);
}

#[test]
fn checkpoint_replay_guard_and_each_store_failure_are_protected_full_rounds() {
    let query = UtxoQuery::new(address(1), 0);
    let entries = [(0, utxo(1, 10))];
    let (baseline, _) = run_initial(&entries, query);

    let current = checkpoint();
    let mut stale_checkpoints = [current; 6];
    stale_checkpoints[0].network = PrivateNetwork::Testnet;
    stale_checkpoints[1].height += 1;
    stale_checkpoints[2].block_hash_display = [0x32; 32];
    stale_checkpoints[3].schema_version += 1;
    stale_checkpoints[4].projection_epoch += 1;
    stale_checkpoints[5].key_epoch += 1;
    let mut stale_runtime = runtime(4, &entries);
    for (index, stale) in stale_checkpoints.into_iter().enumerate() {
        let nonce = u8::try_from(index + 1).expect("six checkpoint cases fit u8");
        let stale_request = request_envelope(&stale_runtime, stale, query, None, nonce);
        let (stale_trace, stale_response) = handle_and_decode(&mut stale_runtime, &stale_request);
        assert_eq!(stale_trace, baseline);
        assert_eq!(
            stale_response.page.outcome(),
            QueryOutcome::ProjectionNotReady
        );
        assert!(stale_response.page.is_all_dummy());
    }

    let token_entries = [(0, utxo(1, 10)), (2, utxo(2, 11)), (3, utxo(3, 12))];
    let mut issuer = runtime(4, &token_entries);
    let issuer_request = request_envelope(&issuer, checkpoint(), query, None, 7);
    let (_, issuer_response) = handle_and_decode(&mut issuer, &issuer_request);
    let retryable_token = issuer_response
        .continuation
        .expect("capped issuer response carries a retryable token");
    let mut unavailable_runtime = runtime_with_components(
        store(4, &token_entries),
        4,
        CountingReplayGuard::unavailable(),
        DeterministicMaterialSource::at(101),
    );
    let unavailable_request = request_envelope(
        &unavailable_runtime,
        checkpoint(),
        query,
        Some(retryable_token),
        8,
    );
    let unavailable_counters = RuntimeCounters::capture(&unavailable_runtime);
    assert!(matches!(
        unavailable_runtime.handle(&unavailable_request),
        Err(UniformExternalFailure)
    ));
    unavailable_counters.assert_fixed_work_before_release_failure(&unavailable_runtime);
    let replay_guard = &unavailable_runtime.security.replay_guard;
    assert_eq!(replay_guard.real_claim_attempts, 0);
    assert!(replay_guard.claimed_requests.iter().all(Option::is_none));
    assert!(replay_guard.claimed.iter().all(Option::is_none));
    assert!(!unavailable_runtime.healthy);
    let unavailable_after_failure = RuntimeCounters::capture(&unavailable_runtime);
    unavailable_runtime.security.replay_guard.available = true;
    assert!(matches!(
        unavailable_runtime.handle(&unavailable_request),
        Err(UniformExternalFailure)
    ));
    assert_eq!(
        RuntimeCounters::capture(&unavailable_runtime),
        unavailable_after_failure
    );

    for failing_ordinal in 1..=4 {
        let failing_store = store(4, &entries).with_failure_on_read(failing_ordinal);
        let mut failing_runtime = runtime_with_components(
            failing_store,
            4,
            CountingReplayGuard::available(),
            DeterministicMaterialSource::at(100),
        );
        let request = request_envelope(&failing_runtime, checkpoint(), query, None, 3);
        let (trace, response) = handle_and_decode(&mut failing_runtime, &request);
        assert_eq!(trace, baseline);
        assert_eq!(response.page.outcome(), QueryOutcome::StoreFailure);
        assert!(response.page.is_all_dummy());
        assert!(!failing_runtime.healthy);
    }
}

#[test]
fn each_recent_snapshot_failure_completes_fixed_work_and_latches_readiness() {
    let query = UtxoQuery::new(address(1), 0);
    let entries = [(0, utxo(1, 10))];
    let (baseline, _) = run_initial(&entries, query);
    let recent_slots = vec![
        created(address(1), utxo(2, 11)),
        RecentSlot::Dummy,
        RecentSlot::Dummy,
        RecentSlot::Dummy,
    ];

    for failing_ordinal in 0..RECENT_SNAPSHOT_SLOTS {
        let mut runtime = runtime_with_snapshot(
            store(4, &entries),
            4,
            TestSnapshot::failing(lineage(), recent_slots.clone(), failing_ordinal),
            CountingReplayGuard::available(),
            DeterministicMaterialSource::at(100),
        );

        let request = request_envelope(&runtime, checkpoint(), query, None, 1);
        let (trace, response) = handle_and_decode(&mut runtime, &request);
        assert_eq!(trace, baseline);
        assert_eq!(response.page.outcome(), QueryOutcome::ProjectionNotReady);
        assert!(response.page.is_all_dummy());
        assert!(!runtime.healthy);

        let rejected = request_envelope(&runtime, checkpoint(), query, None, 2);
        let counters = RuntimeCounters::capture(&runtime);
        assert!(matches!(
            runtime.handle(&rejected),
            Err(UniformExternalFailure)
        ));
        assert_eq!(RuntimeCounters::capture(&runtime), counters);
        assert_eq!(snapshot_reads(&runtime), RECENT_SNAPSHOT_SLOTS);
        assert_eq!(store_reads(&runtime), 4);
    }

    let mut both_fail = runtime_with_snapshot(
        store(4, &entries).with_failure_on_read(1),
        4,
        TestSnapshot::failing(lineage(), recent_slots, 0),
        CountingReplayGuard::available(),
        DeterministicMaterialSource::at(100),
    );
    let request = request_envelope(&both_fail, checkpoint(), query, None, 3);
    let (trace, response) = handle_and_decode(&mut both_fail, &request);
    assert_eq!(trace, baseline);
    assert_eq!(response.page.outcome(), QueryOutcome::StoreFailure);
    assert!(response.page.is_all_dummy());
}

#[test]
fn runtime_rejects_lease_bound_to_different_replay_policy() {
    let profile_a = profile(4, RECENT_SNAPSHOT_SLOTS, replay_policy());
    let mut replay_policy_b = profile_a.replay_policy();
    replay_policy_b.transaction_capacity = replay_policy_b
        .transaction_capacity()
        .checked_add(1)
        .expect("fixture replay capacity leaves increment headroom");
    let profile_b = profile(4, RECENT_SNAPSHOT_SLOTS, replay_policy_b);
    assert_ne!(
        profile_a.replay_policy().transaction_capacity(),
        profile_b.replay_policy().transaction_capacity()
    );
    assert_eq!(
        profile_a.replay_policy().expiry_bucket_width_seconds(),
        profile_b.replay_policy().expiry_bucket_width_seconds()
    );
    assert_eq!(
        profile_a
            .replay_policy()
            .garbage_collection_interval_seconds(),
        profile_b
            .replay_policy()
            .garbage_collection_interval_seconds()
    );
    let shape_a: TestShape = CompiledQueryShape::new(profile_a).unwrap();
    let shape_b: TestShape = CompiledQueryShape::new(profile_b).unwrap();
    assert_ne!(
        shape_a.profile().profile_id(),
        shape_b.profile().profile_id()
    );
    let lease = security_lease(
        &shape_a,
        checkpoint().key_epoch,
        SESSION_BINDING,
        CountingReplayGuard::available(),
        DeterministicMaterialSource::at(100),
    );

    let runtime = TestRuntime::without_epoch(shape_b, RECENT_SNAPSHOT_SLOTS, lease);

    assert!(matches!(runtime, Err(UniformExternalFailure)));
}

#[test]
fn runtime_rejects_snapshot_shape_and_checkpoint_identity_mismatches() {
    let shape = runtime_shape(4);
    let lease = || {
        security_lease(
            &shape,
            checkpoint().key_epoch,
            SESSION_BINDING,
            CountingReplayGuard::available(),
            DeterministicMaterialSource::at(100),
        )
    };
    let three_slots = TestSnapshot::new(lineage(), vec![RecentSlot::Dummy; 3]);
    let shape_mismatch = runtime_over(
        serving_epoch(three_slots.clone(), store(4, &[])),
        shape,
        3,
        checkpoint(),
        lease(),
    );
    assert!(matches!(shape_mismatch, Err(UniformExternalFailure)));
    let snapshot_mismatch = runtime_over(
        serving_epoch(three_slots, store(4, &[])),
        shape,
        RECENT_SNAPSHOT_SLOTS,
        checkpoint(),
        lease(),
    );
    assert!(matches!(snapshot_mismatch, Err(UniformExternalFailure)));
    for unfit_store in [store(0, &[]), store(3, &[])] {
        let store_mismatch = runtime_over(
            serving_epoch(TestSnapshot::new(lineage(), dummies()), unfit_store),
            shape,
            RECENT_SNAPSHOT_SLOTS,
            checkpoint(),
            lease(),
        );
        assert!(matches!(store_mismatch, Err(UniformExternalFailure)));
    }

    let current = recent_snapshot_identity(&checkpoint());
    let mut mismatched_identities = [current; 6];
    mismatched_identities[0].network_tag ^= 1;
    mismatched_identities[1].finalized_height += 1;
    mismatched_identities[2].finalized_hash_display = [0x32; 32];
    mismatched_identities[3].schema_version += 1;
    mismatched_identities[4].projection_epoch += 1;
    mismatched_identities[5].key_epoch += 1;
    for mismatched_identity in mismatched_identities {
        let snapshot =
            TestSnapshot::new(Lineage::at_generation(mismatched_identity, 1), dummies());
        let identity_mismatch = runtime_over(
            serving_epoch(snapshot, store(4, &[])),
            shape,
            RECENT_SNAPSHOT_SLOTS,
            checkpoint(),
            lease(),
        );
        assert!(matches!(identity_mismatch, Err(UniformExternalFailure)));
    }
}

#[test]
fn readiness_precedence_and_claim_commit_survive_downstream_failure_and_latch() {
    let entries = [(0, utxo(1, 10)), (2, utxo(2, 11)), (3, utxo(3, 12))];
    let query = UtxoQuery::new(address(1), 0);
    let mut issuer = runtime(4, &entries);
    let initial_request = request_envelope(&issuer, checkpoint(), query, None, 1);
    let (baseline, initial) = handle_and_decode(&mut issuer, &initial_request);
    let token = initial
        .continuation
        .expect("capped issuer response carries a retryable token");
    let mut tampered_bytes = *token.opaque_bytes();
    tampered_bytes[17] ^= 0x80;
    let tampered = ContinuationToken::from_opaque_bytes(tampered_bytes);

    let failing_runtime = || {
        runtime_with_components(
            store(4, &entries).with_failure_on_read(1),
            4,
            CountingReplayGuard::available(),
            DeterministicMaterialSource::at(101),
        )
    };
    let mut failing = failing_runtime();
    let invalid_failure_request =
        request_envelope(&failing, checkpoint(), query, Some(tampered), 2);
    let (invalid_failure_trace, invalid_failure) =
        handle_and_decode(&mut failing, &invalid_failure_request);
    assert_eq!(invalid_failure_trace, baseline);
    assert_eq!(invalid_failure.page.outcome(), QueryOutcome::StoreFailure);

    let mut stale = checkpoint();
    stale.height += 1;
    let mut stale_runtime = runtime(4, &entries);
    let stale_request = request_envelope(&stale_runtime, stale, query, Some(tampered), 3);
    let (stale_trace, stale_response) = handle_and_decode(&mut stale_runtime, &stale_request);
    assert_eq!(stale_trace, baseline);
    assert_eq!(
        stale_response.page.outcome(),
        QueryOutcome::ProjectionNotReady
    );

    let mut claimed_then_failed = failing_runtime();
    let request = request_envelope(&claimed_then_failed, checkpoint(), query, Some(token), 4);
    let (trace, response) = handle_and_decode(&mut claimed_then_failed, &request);
    assert_eq!(trace, baseline);
    assert_eq!(response.page.outcome(), QueryOutcome::StoreFailure);
    let replay_guard = &claimed_then_failed.security.replay_guard;
    assert_eq!(replay_guard.real_claim_attempts, 1);
    assert_eq!(replay_guard.claimed.iter().flatten().count(), 1);

    let rejected = request_envelope(&claimed_then_failed, checkpoint(), query, Some(token), 5);
    let counters = RuntimeCounters::capture(&claimed_then_failed);
    assert!(matches!(
        claimed_then_failed.handle(&rejected),
        Err(UniformExternalFailure)
    ));
    assert_eq!(RuntimeCounters::capture(&claimed_then_failed), counters);
}

#[test]
fn envelope_open_unavailability_latches_before_private_work() {
    let mut runtime = runtime(4, &[(0, utxo(1, 10))]);
    let request = request_envelope(
        &runtime,
        checkpoint(),
        UtxoQuery::new(address(1), 0),
        None,
        1,
    );
    let counters = RuntimeCounters::capture(&runtime);
    runtime.security.envelope_protector.open_unavailable = true;

    let failure = uniform_failure(runtime.handle(&request));

    assert_eq!(failure.message(), "private query failed");
    let mut expected = counters;
    expected.process.envelope_opens += 1;
    assert_eq!(RuntimeCounters::capture(&runtime), expected);
    assert!(!runtime.healthy);
}

#[test]
fn token_open_unavailability_completes_fixed_work_and_withholds_round() {
    assert_protection_failure_completes_fixed_work(&[(0, utxo(1, 10))], |runtime| {
        runtime.security.token_protector.open_unavailable = true;
    });
}

#[test]
fn token_seal_unavailability_completes_capped_fixed_work_and_withholds_round() {
    assert_protection_failure_completes_fixed_work(
        &[(0, utxo(1, 10)), (1, utxo(2, 11)), (2, utxo(3, 12))],
        |runtime| {
            runtime.security.token_protector.seal_unavailable = true;
        },
    );
}

#[test]
fn envelope_seal_unavailability_completes_fixed_work_and_withholds_round() {
    assert_protection_failure_completes_fixed_work(&[(0, utxo(1, 10))], |runtime| {
        runtime.security.envelope_protector.seal_unavailable = true;
    });
}

#[test]
fn material_failure_precedes_replay_claim_and_outer_failures_are_uniform() {
    let entries = [(0, utxo(1, 10)), (1, utxo(2, 11)), (2, utxo(3, 12))];
    let query = UtxoQuery::new(address(1), 0);
    let mut issuer = runtime(4, &entries);
    let initial_request = request_envelope(&issuer, checkpoint(), query, None, 1);
    let (_, initial_response) = handle_and_decode(&mut issuer, &initial_request);
    let retryable_token = initial_response
        .continuation
        .expect("capped issuer response carries a retryable token");

    let mut failing_runtime = runtime_with_components(
        store(4, &entries),
        4,
        CountingReplayGuard::available(),
        DeterministicMaterialSource::failing(100),
    );
    let request = request_envelope(
        &failing_runtime,
        checkpoint(),
        query,
        Some(retryable_token),
        2,
    );
    let failure = uniform_failure(failing_runtime.handle(&request));
    assert_eq!(failure.message(), "private query failed");
    assert_eq!(failing_runtime.security.material_source.calls, 1);
    let replay_guard = &failing_runtime.security.replay_guard;
    assert_eq!(replay_guard.calls, 0);
    assert_eq!(replay_guard.real_claim_attempts, 0);
    assert_eq!(replay_guard.logical_reads, 0);
    assert_eq!(replay_guard.logical_writes, 0);
    assert_eq!(failing_runtime.security.token_protector.opens, 0);
    assert_eq!(failing_runtime.security.token_protector.seals, 0);
    assert!(!failing_runtime.healthy);

    let mut malformed_runtime = runtime(4, &[]);
    let mut tampered = request_envelope(&malformed_runtime, checkpoint(), query, None, 2);
    tampered[ENVELOPE_NONCE_BYTES + 3] ^= 0x80;
    let failure = uniform_failure(malformed_runtime.handle(&tampered));
    assert_eq!(failure.message(), "private query failed");
    assert_eq!(malformed_runtime.security.material_source.calls, 0);
    assert_eq!(malformed_runtime.security.replay_guard.calls, 0);
    assert!(malformed_runtime.healthy);

    let mut noncanonical_runtime = runtime(4, &[]);
    let canonical = request_envelope(&noncanonical_runtime, checkpoint(), query, None, 3);
    let mut body = canonical[ENVELOPE_NONCE_BYTES..ENVELOPE_BYTES - 16].to_vec();
    body[0] = 0x80;
    let noncanonical = noncanonical_runtime.security.envelope_protector.seal(
        0,
        &noncanonical_runtime.codec,
        &canonical[..ENVELOPE_NONCE_BYTES],
        body,
    );
    let failure = uniform_failure(noncanonical_runtime.handle(&noncanonical));
    assert_eq!(failure.message(), "private query failed");
    assert_eq!(noncanonical_runtime.security.material_source.calls, 0);
    assert_eq!(noncanonical_runtime.security.replay_guard.calls, 0);
    assert!(noncanonical_runtime.healthy);
}

#[test]
fn runtime_debug_surfaces_redact_private_material() {
    let security_epoch = SecurityEpochTag::new(SECURITY_EPOCH_BINDING, EPOCH_INSTANCE);
    let security_round = SecurityRoundCapture::new(&security_epoch, 1);
    let response_nonce = [0x44; ENVELOPE_NONCE_BYTES];
    let token_nonce = [0x55; ENVELOPE_NONCE_BYTES];
    let reservation_authority =
        RoundReservationAuthority::new(&security_round, 123_456, response_nonce, token_nonce);
    let material = RoundMaterial::new(
        123_456,
        response_nonce,
        token_nonce,
        security_round,
        reservation_authority,
    );
    let context = token_context(&runtime(4, &[]));
    assert_eq!(material.debug_text(), "RoundMaterial { ..REDACTED.. }");
    assert_eq!(
        context.debug_text(),
        "ContinuationProtectionContext { ..REDACTED.. }"
    );
    assert_eq!(
        UniformExternalFailure.debug_text(),
        "UniformExternalFailure"
    );
}

/// An owner refreshes in two halves, serves, withholds what was made under a
/// closed owner, and keeps no epoch after a failed refresh.
#[test]
fn owner_refreshes_serves_and_closes() {
    let shape = runtime_shape(4);
    let mut owner = TestOwner::new(
        PrivateNetwork::Mainnet,
        1,
        9,
        shape,
        RECENT_SNAPSHOT_SLOTS,
        security_lease(
            &shape,
            checkpoint().key_epoch,
            SESSION_BINDING,
            CountingReplayGuard::available(),
            DeterministicMaterialSource::at(100),
        ),
    )
    .ok()
    .unwrap();

    let permit = owner.begin_refresh().ok().unwrap();
    assert!(owner.response_release.is_refreshing());
    let (projection, captured) = refresh_parts(1);
    owner
        .complete_refresh(permit, projection, Ok(captured))
        .unwrap();
    assert!(owner.response_release.is_idle());
    assert!(owner.controller.published);

    let request = finalized_request(&owner.runtime, 1);
    let mut pending = owner.query_page(request).ok().unwrap();
    assert!(owner.begin_refresh().is_err());
    assert!(owner.runtime.epoch.is_some());
    assert!(owner.shutdown().is_err());
    assert!(pending
        .try_release_bytes(
            &mut owner.response_release,
            &mut owner.runtime.security.currentness
        )
        .is_ok());
    pending.release(&mut owner.response_release);
    assert!(owner.response_release.is_idle());

    let permit = owner.begin_refresh().ok().unwrap();
    assert!(owner.runtime.epoch.is_none());
    owner.abandon_refresh(permit);
    assert!(owner.response_release.is_idle());
    let permit = owner.begin_refresh().ok().unwrap();
    assert!(owner
        .complete_refresh(
            permit,
            refresh_parts(1).0,
            Err(FinalizedRuntimeOwnerError)
        )
        .is_err());
    assert!(owner.runtime.epoch.is_none());
    assert!(!owner.controller.published);

    let permit = owner.begin_refresh().ok().unwrap();
    let (projection, captured) = refresh_parts(2);
    owner
        .complete_refresh(permit, projection, Ok(captured))
        .unwrap();
    let request = finalized_request(&owner.runtime, 2);
    let mut detached = owner.query_page(request).ok().unwrap();
    owner.close();
    assert!(detached
        .try_release_bytes(
            &mut owner.response_release,
            &mut owner.runtime.security.currentness
        )
        .is_err());
}

/// A round that leaves the runtime unhealthy makes its owner let go of everything.
#[test]
fn owner_retires_after_an_unhealthy_round() {
    let shape = runtime_shape(4);
    let mut owner = TestOwner::new(
        PrivateNetwork::Mainnet,
        1,
        9,
        shape,
        RECENT_SNAPSHOT_SLOTS,
        security_lease(
            &shape,
            checkpoint().key_epoch,
            SESSION_BINDING,
            CountingReplayGuard::unavailable(),
            DeterministicMaterialSource::at(100),
        ),
    )
    .ok()
    .unwrap();
    let permit = owner.begin_refresh().ok().unwrap();
    let (projection, captured) = refresh_parts(1);
    owner
        .complete_refresh(permit, projection, Ok(captured))
        .unwrap();

    let request = finalized_request(&owner.runtime, 1);
    assert!(owner.handle(&request).is_err());
    assert!(!owner.runtime.healthy);
    assert!(owner.runtime.epoch.is_none());
    assert!(owner.response_release.is_closed());
    assert!(!owner.controller.published);
    assert_eq!(security_state(&owner.runtime), (false, false, 0));
    assert!(owner.shutdown().is_ok());
}

#[test]
fn outcomes_are_reported_in_order_of_precedence() {
    let served = RoundFacts {
        was_healthy: true,
        checkpoint_matches: true,
        replay_unavailable: false,
        invalid_continuation: false,
        request_duplicate: false,
        token_protection_unavailable: false,
        recent_snapshot_failed: false,
        engine_outcome: QueryOutcome::Complete,
    };
    assert_eq!(protected_outcome(&served), QueryOutcome::Complete);
    assert!(!degrades(&served));

    let invalid = RoundFacts {
        invalid_continuation: true,
        ..served
    };
    assert_eq!(
        protected_outcome(&invalid),
        QueryOutcome::InvalidContinuation
    );
    assert!(!degrades(&invalid));

    let stale = RoundFacts {
        checkpoint_matches: false,
        ..invalid
    };
    assert_eq!(protected_outcome(&stale), QueryOutcome::ProjectionNotReady);
    assert!(!degrades(&stale));

    let drifted = RoundFacts {
        recent_snapshot_failed: true,
        ..served
    };
    assert_eq!(
        protected_outcome(&drifted),
        QueryOutcome::ProjectionNotReady
    );
    assert!(degrades(&drifted));

    let failing = RoundFacts {
        engine_outcome: QueryOutcome::StoreFailure,
        ..stale
    };
    assert_eq!(protected_outcome(&failing), QueryOutcome::StoreFailure);
    assert!(degrades(&failing));
}

#[test]
fn readiness_follows_the_continuation() {
    let initial = RoundReadiness {
        cursor: 0,
        continuation_expiry: 160,
        invalid_continuation: false,
        request_duplicate: false,
        token_protection_unavailable: false,
    };
    assert_eq!(
        select_readiness(ContinuationUse::Initial, 160),
        Some(initial)
    );
    assert_eq!(
        select_readiness(
            ContinuationUse::Continue {
                cursor: 7,
                expires_at_unix_seconds: 130
            },
            160
        ),
        Some(RoundReadiness {
            cursor: 7,
            continuation_expiry: 130,
            ..initial
        })
    );
    assert_eq!(
        select_readiness(ContinuationUse::InvalidContinuation, 160),
        Some(RoundReadiness {
            invalid_continuation: true,
            ..initial
        })
    );
    assert_eq!(
        select_readiness(ContinuationUse::ProjectionNotReady, 160),
        Some(RoundReadiness {
            request_duplicate: true,
            ..initial
        })
    );
    assert_eq!(
        select_readiness(ContinuationUse::ProtectionUnavailable, 160),
        Some(RoundReadiness {
            token_protection_unavailable: true,
            ..initial
        })
    );
}

#[test]
fn round_plans_refuse_numbers_that_do_not_fit() {
    let plan = plan_round(&profile(4, 4, replay_policy()), 100).unwrap();
    assert_eq!(plan.cursor_limit, 8);
    assert_eq!(plan.initial_expiry, 160);
    assert!(plan_round(&profile(4, 4, replay_policy()), u64::MAX).is_none());
    assert!(plan_round(&profile(usize::MAX, 1, replay_policy()), 100).is_none());
}

#[test]
fn responses_mask_their_page_and_carry_a_token_only_with_more() {
    let token = ContinuationToken::from_opaque_bytes([7; CONTINUATION_TOKEN_BYTES]);
    let mut page = UtxoResultPage::empty(RESPONSE_SLOTS);
    page.slots[0] = ResultSlot::Occupied(utxo(1, 10));

    let more = compose_response(
        checkpoint(),
        page.clone(),
        QueryOutcome::ResultBudgetExceeded,
        RESPONSE_SLOTS,
        token,
    )
    .unwrap();
    assert!(more.has_more && more.continuation == Some(token));
    assert_eq!(real_count(&more.page), 1);

    let masked = compose_response(
        checkpoint(),
        page.clone(),
        QueryOutcome::InvalidContinuation,
        RESPONSE_SLOTS,
        token,
    )
    .unwrap();
    assert!(masked.page.is_all_dummy() && masked.continuation.is_none());

    assert!(matches!(
        PrivateQueryResponse::new(checkpoint(), page, true, None),
        Err(InnerCodecError::InvalidShape)
    ));
}

#[test]
fn traces_accept_only_the_budgeted_schedule_in_order() {
    let mut trace = TraceRecorder::new();
    assert_eq!(
        trace.record_runtime_phase(RuntimePhase::NonceAcquisition),
        Err(TraceError)
    );
    assert_eq!(trace.record_request_frame(ENVELOPE_BYTES), Ok(()));
    assert_eq!(trace.record_request_frame(ENVELOPE_BYTES), Err(TraceError));
    assert_eq!(
        trace.record_runtime_phase(RuntimePhase::RequestDecode),
        Ok(())
    );
    assert_eq!(trace.record_recent_snapshot_read(1), Err(TraceError));
    assert_eq!(trace.record_recent_snapshot_read(0), Ok(()));
    assert_eq!(trace.complete_recent_snapshot_scan(2), Err(TraceError));
    assert_eq!(trace.complete_recent_snapshot_scan(1), Ok(()));
    assert_eq!(
        trace.finish(profile(4, 1, replay_policy()).access_budget()),
        Err(TraceError)
    );
}

#[test]
fn serving_identity_of_an_unknown_network_has_no_checkpoint() {
    let identity = recent_snapshot_identity(&checkpoint());
    assert!(PrivateQueryCheckpoint::try_from_serving_identity(&identity) == Ok(checkpoint()));
    let mut unknown = identity;
    unknown.network_tag = 3;
    assert!(
        PrivateQueryCheckpoint::try_from_serving_identity(&unknown)
            == Err(FinalizedRuntimeBuildError)
    );
}

#[test]
fn retired_currentness_refuses_every_release() {
    let tag = SecurityEpochTag::new(SECURITY_EPOCH_BINDING, EPOCH_INSTANCE);
    let mut currentness = InProcessSecurityEpochCurrentness::new(tag);
    let witness = currentness.release_witness(tag);
    assert_eq!(witness.confirm(&currentness), Ok(()));
    currentness.retire();
    assert!(witness.confirm(&currentness).is_err());
}

#[test]
fn only_an_idle_gate_is_taken_and_a_closed_one_never_again() {
    let holders = [
        ResponseReleaseState::Pending,
        ResponseReleaseState::Refreshing,
    ];
    for held in holders {
        let mut gate = ResponseReleaseGate::new();
        let permit = gate.begin(held).ok().unwrap();
        assert_eq!(permit.held, held);
        assert_eq!(gate.state, held);
        for other in holders {
            assert!(gate.begin(other).is_err());
            assert_eq!(gate.state, held);
        }
        gate.close();
        permit.release(&mut gate);
        for other in holders {
            assert!(gate.begin(other).is_err());
            assert!(gate.is_closed());
        }
    }
}
