//! Profile-bound ownership of the runtime's security providers.
//!
//! The lease below is an internal lifetime contract. Its in-process epoch and
//! authority checks make ownership and release ordering explicit, but do not
//! establish durable replay, trusted time, nonce persistence, rollback
//! resistance or key custody. The Unix-seconds value carried through a round
//! is an observation supplied by the host, not a trusted time authority.

use crate::bytes::all_zero;
use crate::bytes::arrays_equal;
use crate::continuation::ContinuationInspection;
use crate::continuation::ContinuationReplayGuard;
use crate::continuation::ContinuationReplayOutcome;
use crate::failure::UniformExternalFailure;
use crate::host_clock::host_unix_seconds;
use crate::instances::InstanceNumber;
use crate::os_entropy::fill_from_os;
use crate::profile::CompiledQueryShape;
use crate::providers::ContinuationTokenProtector;
use crate::runtime_security::ReplayCommitAuthority;
use crate::runtime_security::RoundReservationAuthority;
use crate::runtime_security::SecurityEpochTag;
use crate::runtime_security::SecurityRoundCapture;
use crate::runtime_security::ENVELOPE_NONCE_BYTES;
use crate::security_state::PROFILE_ID_BYTES;
use crate::security_state::SESSION_BINDING_BYTES;
use vstd::prelude::*;

verus! {

pub const RUNTIME_SECURITY_PROTOCOL_VERSION: u16 = 1;

pub const REPLAY_NAMESPACE_BYTES: usize = 32;

/// Server-owned material acquired once before any continuation replay commit.
///
/// The time observation is part of the exact in-process reservation tuple. That
/// prevents values from different rounds being mixed, but does not establish
/// that the observation is monotonic, fresh, or suitable for authorizing
/// replay-claim retirement.
#[derive(Clone, Copy, PartialEq, Eq)]
pub struct RoundMaterial {
    pub now_unix_seconds: u64,
    pub response_nonce: [u8; ENVELOPE_NONCE_BYTES],
    pub token_nonce: [u8; ENVELOPE_NONCE_BYTES],
    pub security_round: SecurityRoundCapture,
    pub reservation_authority: RoundReservationAuthority,
}

impl RoundMaterial {
    pub fn new(
        now_unix_seconds: u64,
        response_nonce: [u8; ENVELOPE_NONCE_BYTES],
        token_nonce: [u8; ENVELOPE_NONCE_BYTES],
        security_round: SecurityRoundCapture,
        reservation_authority: RoundReservationAuthority,
    ) -> (material: Self)
        ensures
            material == (RoundMaterial {
                now_unix_seconds,
                response_nonce,
                token_nonce,
                security_round,
                reservation_authority,
            }),
    {
        RoundMaterial {
            now_unix_seconds,
            response_nonce,
            token_nonce,
            security_round,
            reservation_authority,
        }
    }

    /// The reservation covers exactly the material it comes with.
    pub open spec fn is_reserved(self) -> bool {
        self.reservation_authority.covers(
            self.security_round.epoch,
            self.security_round,
            self.now_unix_seconds,
            self.response_nonce,
            self.token_nonce,
        )
    }

    pub fn now_unix_seconds(&self) -> (seconds: u64)
        ensures
            seconds == self.now_unix_seconds,
    {
        self.now_unix_seconds
    }

    pub fn response_nonce(&self) -> (nonce: [u8; ENVELOPE_NONCE_BYTES])
        ensures
            nonce == self.response_nonce,
    {
        self.response_nonce
    }

    pub fn token_nonce(&self) -> (nonce: [u8; ENVELOPE_NONCE_BYTES])
        ensures
            nonce == self.token_nonce,
    {
        self.token_nonce
    }

    pub fn security_round(&self) -> (round: &SecurityRoundCapture)
        ensures
            *round == self.security_round,
    {
        &self.security_round
    }

    pub fn into_parts(self) -> (parts: (
        u64,
        [u8; ENVELOPE_NONCE_BYTES],
        [u8; ENVELOPE_NONCE_BYTES],
        SecurityRoundCapture,
        RoundReservationAuthority,
    ))
        ensures
            parts == (
                self.now_unix_seconds,
                self.response_nonce,
                self.token_nonce,
                self.security_round,
                self.reservation_authority,
            ),
    {
        (
            self.now_unix_seconds,
            self.response_nonce,
            self.token_nonce,
            self.security_round,
            self.reservation_authority,
        )
    }

    /// Redacted rendering for logs.
    pub fn debug_text(&self) -> (text: &'static str)
        ensures
            text@ == "RoundMaterial { ..REDACTED.. }"@,
    {
        "RoundMaterial { ..REDACTED.. }"
    }
}

#[derive(Debug, Clone, Copy, PartialEq, Eq, Structural)]
pub struct RoundMaterialUnavailable;

/// Acquires clock and nonce values plus one opaque round reservation.
///
/// The trait alone proves no time trust, nonce uniqueness, durability, or
/// rollback resistance, and does not provide a replay-maintenance authority or
/// cadence.
pub trait RoundMaterialSource: Sized {
    /// The replies that a draw may give, and the state it may leave.
    open spec fn may_draw(
        before: Self,
        security_epoch: SecurityEpochTag,
        after: Self,
        reply: Result<RoundMaterial, RoundMaterialUnavailable>,
    ) -> bool {
        true
    }

    fn next_round_material(&mut self, security_epoch: &SecurityEpochTag) -> (reply: Result<
        RoundMaterial,
        RoundMaterialUnavailable,
    >)
        ensures
            Self::may_draw(*old(self), *security_epoch, *final(self), reply),
    ;
}

#[derive(Debug, Clone, Copy, PartialEq, Eq, Structural)]
pub struct SecurityEpochUnavailable;

/// Which security epoch is active in this process.
///
/// A retired epoch is neither active nor available, and nothing makes it so again.
#[derive(Clone, Copy, PartialEq, Eq)]
pub struct InProcessSecurityEpochCurrentness {
    pub active: Option<SecurityEpochTag>,
    pub available: bool,
    /// Observations made while available, as far as they can be counted.
    pub observations: usize,
}

impl InProcessSecurityEpochCurrentness {
    pub fn new(active: SecurityEpochTag) -> (currentness: Self)
        ensures
            currentness.active == Some(active),
            currentness.available,
            currentness.observations == 0,
    {
        InProcessSecurityEpochCurrentness { active: Some(active), available: true, observations: 0 }
    }

    pub fn release_witness(&self, expected: SecurityEpochTag) -> (witness:
        SecurityEpochReleaseWitness)
        ensures
            witness.expected == expected,
    {
        SecurityEpochReleaseWitness { expected }
    }

    pub fn retire(&mut self)
        ensures
            final(self).active is None,
            !final(self).available,
            final(self).observations == old(self).observations,
    {
        self.active = None;
        self.available = false;
    }

    /// The epoch is active, and can be observed.
    pub open spec fn is_current(self, expected: SecurityEpochTag) -> bool {
        self.available && self.active == Some(expected)
    }

    /// Redacted rendering for logs.
    pub fn debug_text(&self) -> (text: &'static str)
        ensures
            text@ == "InProcessSecurityEpochCurrentness { ..REDACTED.. }"@,
    {
        "InProcessSecurityEpochCurrentness { ..REDACTED.. }"
    }
}

/// Capability retained until response release: the epoch a response was made under.
#[derive(Clone, Copy, PartialEq, Eq)]
pub struct SecurityEpochReleaseWitness {
    pub expected: SecurityEpochTag,
}

/// Everything that a release must match.
#[derive(Clone, Copy, PartialEq, Eq)]
pub struct RoundReleaseClaim {
    pub security_round: SecurityRoundCapture,
    pub reservation_authority: RoundReservationAuthority,
    pub replay_commit_authority: ReplayCommitAuthority,
    pub now_unix_seconds: u64,
    pub response_nonce: [u8; ENVELOPE_NONCE_BYTES],
    pub token_nonce: [u8; ENVELOPE_NONCE_BYTES],
}

impl RoundReleaseClaim {
    /// Both authorities were minted for exactly this round of the epoch.
    pub open spec fn is_authorized(self, epoch: SecurityEpochTag) -> bool {
        &&& self.reservation_authority.covers(
            epoch,
            self.security_round,
            self.now_unix_seconds,
            self.response_nonce,
            self.token_nonce,
        )
        &&& self.replay_commit_authority.covers(epoch, self.security_round)
    }
}

impl SecurityEpochReleaseWitness {
    /// First half of a release check: the active epoch is the expected one, and
    /// both authorities are of this round of it.
    pub fn observe(
        &self,
        currentness: &mut InProcessSecurityEpochCurrentness,
        claim: &RoundReleaseClaim,
    ) -> (result: Result<(), SecurityEpochUnavailable>)
        ensures
            result is Ok <==> old(currentness).is_current(self.expected) && claim.is_authorized(
                self.expected,
            ),
            final(currentness).active == old(currentness).active,
            final(currentness).available == old(currentness).available,
            final(currentness).observations == if old(currentness).available && old(
                currentness,
            ).observations < usize::MAX {
                (old(currentness).observations + 1) as usize
            } else {
                old(currentness).observations
            },
    {
        if !currentness.available {
            return Err(SecurityEpochUnavailable);
        }
        currentness.observations = currentness.observations.saturating_add(1);
        match &currentness.active {
            None => Err(SecurityEpochUnavailable),
            Some(active) => {
                if active.same_capture(&self.expected) && claim.reservation_authority.matches(
                    active,
                    &claim.security_round,
                    claim.now_unix_seconds,
                    &claim.response_nonce,
                    &claim.token_nonce,
                ) && claim.replay_commit_authority.matches(active, &claim.security_round) {
                    Ok(())
                } else {
                    Err(SecurityEpochUnavailable)
                }
            },
        }
    }

    /// Second half of a release check: the epoch is still the expected one.
    pub fn confirm(&self, currentness: &InProcessSecurityEpochCurrentness) -> (result: Result<
        (),
        SecurityEpochUnavailable,
    >)
        ensures
            result is Ok <==> currentness.is_current(self.expected),
    {
        if !currentness.available {
            return Err(SecurityEpochUnavailable);
        }
        match &currentness.active {
            Some(active) => if active.same_capture(&self.expected) {
                Ok(())
            } else {
                Err(SecurityEpochUnavailable)
            },
            None => Err(SecurityEpochUnavailable),
        }
    }

    /// Checks one release against the active epoch, twice.
    pub fn observe_and_match(
        &self,
        currentness: &mut InProcessSecurityEpochCurrentness,
        claim: &RoundReleaseClaim,
    ) -> (result: Result<(), SecurityEpochUnavailable>)
        ensures
            result is Ok <==> old(currentness).is_current(self.expected) && claim.is_authorized(
                self.expected,
            ),
            final(currentness).active == old(currentness).active,
            final(currentness).available == old(currentness).available,
            final(currentness).observations == if old(currentness).available && old(
                currentness,
            ).observations < usize::MAX {
                (old(currentness).observations + 1) as usize
            } else {
                old(currentness).observations
            },
    {
        match self.observe(currentness, claim) {
            Ok(()) => {},
            Err(error) => {
                return Err(error);
            },
        }
        self.confirm(currentness)
    }

    /// Redacted rendering for logs.
    pub fn debug_text(&self) -> (text: &'static str)
        ensures
            text@ == "SecurityEpochReleaseWitness { ..REDACTED.. }"@,
    {
        "SecurityEpochReleaseWitness { ..REDACTED.. }"
    }
}

/// Opaque name under which a lease's requests and continuations are claimed.
#[derive(Clone, Copy, PartialEq, Eq)]
pub struct ReplayNamespace(pub [u8; REPLAY_NAMESPACE_BYTES]);

/// Everything that separates one replay namespace from another.
#[derive(Clone, Copy, PartialEq, Eq)]
pub struct ReplayNamespaceSeed {
    pub service_namespace_id: [u8; 16],
    pub protocol_version: u16,
    pub owner_generation: u64,
    pub key_epoch: u64,
    pub profile_id: [u8; PROFILE_ID_BYTES],
    pub session_binding: [u8; SESSION_BINDING_BYTES],
}

/// Stable inputs used to mint one in-process security lease.
#[derive(Clone, Copy, PartialEq, Eq)]
pub struct SecurityLeaseIdentity {
    pub key_epoch: u64,
    pub session_binding: [u8; SESSION_BINDING_BYTES],
    pub service_namespace_id: [u8; 16],
    pub owner_generation: u64,
    pub security_epoch_binding: [u8; 32],
}

/// What an entropy source gave for the two bindings of a lease.
pub struct BindingDraws<E> {
    pub session_binding: [u8; SESSION_BINDING_BYTES],
    pub session_reply: Result<(), RoundMaterialUnavailable>,
    /// The source between the two draws.
    pub middle: E,
    pub epoch_binding: [u8; 32],
    pub epoch_reply: Result<(), RoundMaterialUnavailable>,
}

impl SecurityLeaseIdentity {
    /// Every field is present.
    pub open spec fn wf(self) -> bool {
        &&& self.key_epoch != 0
        &&& !crate::bytes::is_zero(self.session_binding@)
        &&& !crate::bytes::is_zero(self.service_namespace_id@)
        &&& self.owner_generation != 0
        &&& !crate::bytes::is_zero(self.security_epoch_binding@)
    }

    /// Accepts an identity without a missing field.
    pub fn new(
        key_epoch: u64,
        session_binding: [u8; SESSION_BINDING_BYTES],
        service_namespace_id: [u8; 16],
        owner_generation: u64,
        security_epoch_binding: [u8; 32],
    ) -> (result: Result<Self, UniformExternalFailure>)
        ensures
            ({
                let identity = SecurityLeaseIdentity {
                    key_epoch,
                    session_binding,
                    service_namespace_id,
                    owner_generation,
                    security_epoch_binding,
                };
                result == if identity.wf() {
                    Ok(identity)
                } else {
                    Err(UniformExternalFailure)
                }
            }),
    {
        if key_epoch == 0 || all_zero(&session_binding) || all_zero(&service_namespace_id)
            || owner_generation == 0 || all_zero(&security_epoch_binding) {
            return Err(UniformExternalFailure);
        }
        Ok(
            SecurityLeaseIdentity {
                key_epoch,
                session_binding,
                service_namespace_id,
                owner_generation,
                security_epoch_binding,
            },
        )
    }

    /// How minting an identity ends: both bindings are drawn, in order, and are accepted
    /// as any identity is.
    pub open spec fn is_minted<E: RoundEntropy>(
        key_epoch: u64,
        service_namespace_id: [u8; 16],
        owner_generation: u64,
        before: E,
        draws: BindingDraws<E>,
        after: E,
        result: Result<Self, UniformExternalFailure>,
    ) -> bool {
        &&& E::may_fill(before, draws.middle, draws.session_binding@, draws.session_reply)
        &&& if draws.session_reply is Err {
            after == draws.middle && result is Err
        } else {
            let identity = SecurityLeaseIdentity {
                key_epoch,
                session_binding: draws.session_binding,
                service_namespace_id,
                owner_generation,
                security_epoch_binding: draws.epoch_binding,
            };
            &&& E::may_fill(draws.middle, after, draws.epoch_binding@, draws.epoch_reply)
            &&& result == if draws.epoch_reply is Ok && identity.wf() {
                Ok(identity)
            } else {
                Err(UniformExternalFailure)
            }
        }
    }

    /// Draws both secret bindings of a new lease.
    ///
    /// A restart never resumes its predecessor's session or security epoch.
    pub fn mint<E: RoundEntropy>(
        key_epoch: u64,
        service_namespace_id: [u8; 16],
        owner_generation: u64,
        entropy: &mut E,
    ) -> (result: Result<Self, UniformExternalFailure>)
        ensures
            exists|draws: BindingDraws<E>| #[trigger]
                Self::is_minted(
                    key_epoch,
                    service_namespace_id,
                    owner_generation,
                    *old(entropy),
                    draws,
                    *final(entropy),
                    result,
                ),
    {
        let ghost before = *entropy;
        let ghost mut draws: BindingDraws<E> = arbitrary();
        let mut session_binding: [u8; SESSION_BINDING_BYTES] = [0u8; SESSION_BINDING_BYTES];
        let session_reply = entropy.fill(&mut session_binding);
        proof {
            draws = BindingDraws { session_binding, session_reply, middle: *entropy, ..draws };
        }
        match session_reply {
            Ok(()) => {},
            Err(_) => {
                assert(Self::is_minted(
                    key_epoch,
                    service_namespace_id,
                    owner_generation,
                    before,
                    draws,
                    *entropy,
                    Err(UniformExternalFailure),
                ));
                return Err(UniformExternalFailure);
            },
        }
        let mut security_epoch_binding: [u8; 32] = [0u8; 32];
        let epoch_reply = entropy.fill(&mut security_epoch_binding);
        proof {
            draws = BindingDraws { epoch_binding: security_epoch_binding, epoch_reply, ..draws };
        }
        let result = match epoch_reply {
            Ok(()) => SecurityLeaseIdentity::new(
                key_epoch,
                session_binding,
                service_namespace_id,
                owner_generation,
                security_epoch_binding,
            ),
            Err(_) => Err(UniformExternalFailure),
        };
        assert(Self::is_minted(
            key_epoch,
            service_namespace_id,
            owner_generation,
            before,
            draws,
            *entropy,
            result,
        ));
        result
    }
}

/// The sole owner of all mutable and immutable runtime security providers.
///
/// The lease is bound to one compiled profile before construction and stores only
/// the derived replay namespace, never the namespace's seed. Its owner retires it
/// before letting it go.
pub struct ActiveSecurityLease<E, T, R, M> {
    pub key_epoch: u64,
    pub session_binding: [u8; SESSION_BINDING_BYTES],
    pub profile_id: [u8; PROFILE_ID_BYTES],
    pub replay_namespace: ReplayNamespace,
    pub security_epoch_tag: SecurityEpochTag,
    pub currentness: InProcessSecurityEpochCurrentness,
    pub envelope_protector: E,
    pub token_protector: T,
    pub replay_guard: R,
    pub material_source: M,
}

/// Seed of the replay namespace of an identity under a profile.
pub open spec fn namespace_seed(
    identity: SecurityLeaseIdentity,
    profile: crate::profile::PrivacyProfile,
) -> ReplayNamespaceSeed {
    ReplayNamespaceSeed {
        service_namespace_id: identity.service_namespace_id,
        protocol_version: RUNTIME_SECURITY_PROTOCOL_VERSION,
        owner_generation: identity.owner_generation,
        key_epoch: identity.key_epoch,
        profile_id: profile.profile_id,
        session_binding: identity.session_binding,
    }
}

impl<E, T: ContinuationTokenProtector, R, M> ActiveSecurityLease<E, T, R, M> {
    /// Mints one lease for a compiled profile, active from the start.
    pub fn mint<const RESPONSE_SLOTS: usize, const ENVELOPE_BYTES: usize>(
        shape: &CompiledQueryShape<RESPONSE_SLOTS, ENVELOPE_BYTES>,
        identity: SecurityLeaseIdentity,
        epoch_instance: InstanceNumber,
        envelope_protector: E,
        token_protector: T,
        replay_guard: R,
        material_source: M,
    ) -> (lease: Self)
        ensures
            lease.key_epoch == identity.key_epoch,
            lease.session_binding == identity.session_binding,
            lease.profile_id == shape.profile.profile_id,
            T::may_derive_namespace(
                namespace_seed(identity, shape.profile),
                lease.replay_namespace,
            ),
            lease.security_epoch_tag == (SecurityEpochTag {
                stable_binding: identity.security_epoch_binding,
                instance: epoch_instance@,
            }),
            lease.currentness.is_current(lease.security_epoch_tag),
            lease.currentness.observations == 0,
            lease.envelope_protector == envelope_protector,
            lease.token_protector == token_protector,
            lease.replay_guard == replay_guard,
            lease.material_source == material_source,
    {
        let profile_id = *shape.profile().profile_id();
        let seed = ReplayNamespaceSeed {
            service_namespace_id: identity.service_namespace_id,
            protocol_version: RUNTIME_SECURITY_PROTOCOL_VERSION,
            owner_generation: identity.owner_generation,
            key_epoch: identity.key_epoch,
            profile_id,
            session_binding: identity.session_binding,
        };
        let replay_namespace = T::derive_replay_namespace(&seed);
        let security_epoch_tag = SecurityEpochTag::new(
            identity.security_epoch_binding,
            epoch_instance.into_number(),
        );
        let currentness = InProcessSecurityEpochCurrentness::new(security_epoch_tag);
        ActiveSecurityLease {
            key_epoch: identity.key_epoch,
            session_binding: identity.session_binding,
            profile_id,
            replay_namespace,
            security_epoch_tag,
            currentness,
            envelope_protector,
            token_protector,
            replay_guard,
            material_source,
        }
    }
}

impl<E, T, R, M> ActiveSecurityLease<E, T, R, M> {
    pub fn key_epoch(&self) -> (key_epoch: u64)
        ensures
            key_epoch == self.key_epoch,
    {
        self.key_epoch
    }

    pub fn session_binding(&self) -> (binding: [u8; SESSION_BINDING_BYTES])
        ensures
            binding == self.session_binding,
    {
        self.session_binding
    }

    pub fn profile_id(&self) -> (profile_id: &[u8; PROFILE_ID_BYTES])
        ensures
            *profile_id == self.profile_id,
    {
        &self.profile_id
    }

    pub fn replay_namespace(&self) -> (namespace: &ReplayNamespace)
        ensures
            *namespace == self.replay_namespace,
    {
        &self.replay_namespace
    }

    /// Capability to check a release against this lease's epoch.
    pub fn release_witness(&self) -> (witness: SecurityEpochReleaseWitness)
        ensures
            witness.expected == self.security_epoch_tag,
    {
        self.currentness.release_witness(self.security_epoch_tag)
    }

    /// Retires the lease's epoch: no response made under it can be released any more.
    pub fn retire(&mut self)
        ensures
            final(self).currentness.active is None,
            !final(self).currentness.available,
            final(self).currentness.observations == old(self).currentness.observations,
            *final(self) == (ActiveSecurityLease {
                currentness: final(self).currentness,
                ..*old(self)
            }),
    {
        self.currentness.retire();
    }

    /// Redacted rendering for logs.
    pub fn debug_text(&self) -> (text: &'static str)
        ensures
            text@ == "ActiveSecurityLease { ..REDACTED.. }"@,
    {
        "ActiveSecurityLease { ..REDACTED.. }"
    }
}

impl<E, T, R: ContinuationReplayGuard, M: RoundMaterialSource> ActiveSecurityLease<E, T, R, M> {
    /// Draws the material of one round of the lease's epoch.
    pub fn next_round_material(&mut self) -> (reply: Result<
        RoundMaterial,
        RoundMaterialUnavailable,
    >)
        ensures
            M::may_draw(
                old(self).material_source,
                old(self).security_epoch_tag,
                final(self).material_source,
                reply,
            ),
            *final(self) == (ActiveSecurityLease {
                material_source: final(self).material_source,
                ..*old(self)
            }),
    {
        self.material_source.next_round_material(&self.security_epoch_tag)
    }

    /// Commits one inspected request through the lease's replay guard.
    pub fn finish_replay(
        &mut self,
        inspection: ContinuationInspection,
        security_round: &SecurityRoundCapture,
    ) -> (outcome: ContinuationReplayOutcome)
        requires
            old(self).replay_guard.guard_wf(),
        ensures
            final(self).replay_guard.guard_wf(),
            *final(self) == (ActiveSecurityLease {
                replay_guard: final(self).replay_guard,
                ..*old(self)
            }),
            exists|
                reply: Result<
                    crate::runtime_security::ReplayCommitResult,
                    crate::runtime_security::ReplayCommitUnavailable,
                >,
            |
                #![trigger R::may_commit(old(self).replay_guard, *security_round, inspection.request_key, inspection.plan, final(self).replay_guard, reply)]
                R::may_commit(
                    old(self).replay_guard,
                    *security_round,
                    inspection.request_key,
                    inspection.plan,
                    final(self).replay_guard,
                    reply,
                ) && outcome == crate::continuation::replay_outcome(
                    inspection.continuation_use,
                    reply,
                ),
    {
        inspection.finish_replay(security_round, &mut self.replay_guard)
    }
}

/// Fills a buffer with unpredictable bytes for one round's nonces.
///
/// Injected rather than called directly so nonce handling is testable: a real
/// generator cannot be made to fail, repeat, or collide on demand, and those
/// are exactly the paths that must fail closed.
pub trait RoundEntropy: Sized {
    /// The bytes that a draw may give, and the state it may leave.
    open spec fn may_fill(
        before: Self,
        after: Self,
        bytes: Seq<u8>,
        reply: Result<(), RoundMaterialUnavailable>,
    ) -> bool {
        true
    }

    fn fill(&mut self, bytes: &mut [u8]) -> (reply: Result<(), RoundMaterialUnavailable>)
        ensures
            final(bytes)@.len() == old(bytes)@.len(),
            Self::may_fill(*old(self), *final(self), final(bytes)@, reply),
    ;
}

/// Observes wall-clock time in Unix seconds.
///
/// This is a host observation, not a trusted time authority.
pub trait RoundClock: Sized {
    /// The times that an observation may give, and the state it may leave.
    open spec fn may_tell(
        before: Self,
        after: Self,
        reply: Result<u64, RoundMaterialUnavailable>,
    ) -> bool {
        true
    }

    fn now_unix_seconds(&mut self) -> (reply: Result<u64, RoundMaterialUnavailable>)
        ensures
            Self::may_tell(*old(self), *final(self), reply),
    ;
}

/// Draws nonce bytes from the operating system generator.
///
/// A generator failure surfaces as [`RoundMaterialUnavailable`] and the round
/// is refused; there is no fallback source.
pub struct OsEntropy;

impl RoundEntropy for OsEntropy {
    fn fill(&mut self, bytes: &mut [u8]) -> Result<(), RoundMaterialUnavailable> {
        let filled = fill_from_os(bytes);
        entropy_reply(filled)
    }
}

/// What a draw comes to, by whether the generator filled the buffer.
pub fn entropy_reply(filled: bool) -> (reply: Result<(), RoundMaterialUnavailable>)
    ensures
        reply is Ok <==> filled,
{
    if filled {
        Ok(())
    } else {
        Err(RoundMaterialUnavailable)
    }
}

/// Reads the host wall clock.
///
/// A reading before the Unix epoch is refused rather than saturated: a clock that
/// far wrong is not an observation worth binding a round to.
pub struct SystemRoundClock;

impl RoundClock for SystemRoundClock {
    fn now_unix_seconds(&mut self) -> Result<u64, RoundMaterialUnavailable> {
        clock_reply(host_unix_seconds())
    }
}

/// What a reading of the clock comes to; one before the Unix epoch has no seconds.
pub fn clock_reply(seconds: Option<u64>) -> (reply: Result<u64, RoundMaterialUnavailable>)
    ensures
        reply == match seconds {
            Some(seconds) => Ok(seconds),
            None => Err(RoundMaterialUnavailable),
        },
{
    match seconds {
        Some(seconds) => Ok(seconds),
        None => Err(RoundMaterialUnavailable),
    }
}

/// Whether one time observation may follow the last one that a round was bound to.
///
/// A repeated second is ordinary; a decrease is not.
pub open spec fn clock_may_follow(last: Option<u64>, now: u64) -> bool {
    last matches Some(last) ==> last <= now
}

/// Material of a round with these draws, if the draws are acceptable.
pub open spec fn reserved_round(
    last: Option<u64>,
    now_unix_seconds: u64,
    response_nonce: [u8; ENVELOPE_NONCE_BYTES],
    token_nonce: [u8; ENVELOPE_NONCE_BYTES],
    security_round: SecurityRoundCapture,
) -> Result<RoundMaterial, RoundMaterialUnavailable> {
    if clock_may_follow(last, now_unix_seconds) && response_nonce != token_nonce {
        Ok(
            RoundMaterial {
                now_unix_seconds,
                response_nonce,
                token_nonce,
                security_round,
                reservation_authority: RoundReservationAuthority {
                    round: security_round,
                    now_unix_seconds,
                    response_nonce,
                    token_nonce,
                },
            },
        )
    } else {
        Err(RoundMaterialUnavailable)
    }
}

/// Binds one time observation and two nonce draws to a round.
///
/// Two equal draws mean a broken generator, and one nonce for both the response
/// and the token would cross-contaminate two keystreams.
pub fn reserve_round(
    last: Option<u64>,
    now_unix_seconds: u64,
    response_nonce: [u8; ENVELOPE_NONCE_BYTES],
    token_nonce: [u8; ENVELOPE_NONCE_BYTES],
    security_round: SecurityRoundCapture,
) -> (result: Result<RoundMaterial, RoundMaterialUnavailable>)
    ensures
        result == reserved_round(
            last,
            now_unix_seconds,
            response_nonce,
            token_nonce,
            security_round,
        ),
{
    match last {
        Some(last) => {
            if now_unix_seconds < last {
                return Err(RoundMaterialUnavailable);
            }
        },
        None => {},
    }
    if arrays_equal(&response_nonce, &token_nonce) {
        return Err(RoundMaterialUnavailable);
    }
    let reservation_authority = RoundReservationAuthority::new(
        &security_round,
        now_unix_seconds,
        response_nonce,
        token_nonce,
    );
    Ok(
        RoundMaterial::new(
            now_unix_seconds,
            response_nonce,
            token_nonce,
            security_round,
            reservation_authority,
        ),
    )
}

/// Round material drawn from an entropy source and a host clock.
///
/// Nonces come from the injected generator rather than a counter, the two
/// nonces in a round are distinct, an observed clock that moves backwards is
/// refused, and no two rounds of one source share an instance number.
pub struct OwnedRoundMaterialSource<E, C> {
    pub entropy: E,
    pub clock: C,
    pub last_observed_seconds: Option<u64>,
    /// Instance number of the next round.
    pub next_round: u64,
}

impl<E, C> OwnedRoundMaterialSource<E, C> {
    pub fn new(entropy: E, clock: C) -> (source: Self)
        ensures
            source.entropy == entropy,
            source.clock == clock,
            source.last_observed_seconds is None,
            source.next_round == 0,
    {
        OwnedRoundMaterialSource { entropy, clock, last_observed_seconds: None, next_round: 0 }
    }
}

/// What a clock and an entropy source gave for one round.
pub struct RoundDraws<E> {
    pub told: Result<u64, RoundMaterialUnavailable>,
    pub response_nonce: [u8; ENVELOPE_NONCE_BYTES],
    pub response_reply: Result<(), RoundMaterialUnavailable>,
    /// The entropy source between the two draws.
    pub middle: E,
    pub token_nonce: [u8; ENVELOPE_NONCE_BYTES],
    pub token_reply: Result<(), RoundMaterialUnavailable>,
}

/// How one draw of a round's material ends, for every reply of the clock and of the
/// entropy source.
///
/// The clock is asked first, and nothing is drawn at a time that runs backwards. Only
/// a draw that succeeds moves the observed time and the round's number on. A source
/// that has numbered all the rounds it can draws nothing.
pub open spec fn material_is_drawn<E: RoundEntropy, C: RoundClock>(
    before: OwnedRoundMaterialSource<E, C>,
    security_epoch: SecurityEpochTag,
    draws: RoundDraws<E>,
    after: OwnedRoundMaterialSource<E, C>,
    reply: Result<RoundMaterial, RoundMaterialUnavailable>,
) -> bool {
    let refused = reply == Err::<RoundMaterial, _>(RoundMaterialUnavailable)
        && after.last_observed_seconds == before.last_observed_seconds && after.next_round
        == before.next_round;
    if before.next_round == u64::MAX {
        refused && after == before
    } else {
        &&& C::may_tell(before.clock, after.clock, draws.told)
        &&& match draws.told {
            Err(_) => refused && after.entropy == before.entropy,
            Ok(now) => if !clock_may_follow(before.last_observed_seconds, now) {
                refused && after.entropy == before.entropy
            } else {
                &&& E::may_fill(
                    before.entropy,
                    draws.middle,
                    draws.response_nonce@,
                    draws.response_reply,
                )
                &&& if draws.response_reply is Err {
                    refused && after.entropy == draws.middle
                } else {
                    &&& E::may_fill(
                        draws.middle,
                        after.entropy,
                        draws.token_nonce@,
                        draws.token_reply,
                    )
                    &&& if draws.token_reply is Err || draws.response_nonce == draws.token_nonce {
                        refused
                    } else {
                        &&& reply == reserved_round(
                            before.last_observed_seconds,
                            now,
                            draws.response_nonce,
                            draws.token_nonce,
                            SecurityRoundCapture {
                                epoch: security_epoch,
                                instance: before.next_round,
                            },
                        )
                        &&& after.last_observed_seconds == Some(now)
                        &&& after.next_round == before.next_round + 1
                    }
                }
            },
        }
    }
}

impl<E: RoundEntropy, C: RoundClock> RoundMaterialSource for OwnedRoundMaterialSource<E, C> {
    open spec fn may_draw(
        before: Self,
        security_epoch: SecurityEpochTag,
        after: Self,
        reply: Result<RoundMaterial, RoundMaterialUnavailable>,
    ) -> bool {
        exists|draws: RoundDraws<E>| #[trigger]
            material_is_drawn(before, security_epoch, draws, after, reply)
    }

    fn next_round_material(&mut self, security_epoch: &SecurityEpochTag) -> Result<
        RoundMaterial,
        RoundMaterialUnavailable,
    > {
        let ghost before = *self;
        let ghost mut draws: RoundDraws<E> = arbitrary();
        let following_round: u64 = match self.next_round.checked_add(1) {
            Some(round) => round,
            None => {
                assert(material_is_drawn(
                    before,
                    *security_epoch,
                    draws,
                    *self,
                    Err(RoundMaterialUnavailable),
                ));
                return Err(RoundMaterialUnavailable);
            },
        };
        let told = self.clock.now_unix_seconds();
        proof {
            draws = RoundDraws { told, ..draws };
        }
        let now_unix_seconds: u64 = match told {
            Ok(now) => now,
            Err(error) => {
                assert(material_is_drawn(before, *security_epoch, draws, *self, Err(error)));
                return Err(error);
            },
        };
        match self.last_observed_seconds {
            Some(last) => {
                if now_unix_seconds < last {
                    assert(material_is_drawn(
                        before,
                        *security_epoch,
                        draws,
                        *self,
                        Err(RoundMaterialUnavailable),
                    ));
                    return Err(RoundMaterialUnavailable);
                }
            },
            None => {},
        }
        let mut response_nonce: [u8; ENVELOPE_NONCE_BYTES] = [0u8; ENVELOPE_NONCE_BYTES];
        let response_reply = self.entropy.fill(&mut response_nonce);
        proof {
            draws = RoundDraws { response_nonce, response_reply, middle: self.entropy, ..draws };
        }
        match response_reply {
            Ok(()) => {},
            Err(error) => {
                assert(material_is_drawn(before, *security_epoch, draws, *self, Err(error)));
                return Err(error);
            },
        }
        let mut token_nonce: [u8; ENVELOPE_NONCE_BYTES] = [0u8; ENVELOPE_NONCE_BYTES];
        let token_reply = self.entropy.fill(&mut token_nonce);
        proof {
            draws = RoundDraws { token_nonce, token_reply, ..draws };
        }
        match token_reply {
            Ok(()) => {},
            Err(error) => {
                assert(material_is_drawn(before, *security_epoch, draws, *self, Err(error)));
                return Err(error);
            },
        }
        let security_round = SecurityRoundCapture::new(security_epoch, self.next_round);
        let reply = reserve_round(
            self.last_observed_seconds,
            now_unix_seconds,
            response_nonce,
            token_nonce,
            security_round,
        );
        if reply.is_ok() {
            self.last_observed_seconds = Some(now_unix_seconds);
            self.next_round = following_round;
        }
        assert(material_is_drawn(before, *security_epoch, draws, *self, reply));
        reply
    }
}

/// Material of an owned source carries its own reservation, distinct nonces,
/// and a time that never runs backwards over two successive rounds; and the two
/// rounds are different ones.
pub proof fn successive_rounds_are_distinct_and_ordered<E: RoundEntropy, C: RoundClock>(
    first: OwnedRoundMaterialSource<E, C>,
    second: OwnedRoundMaterialSource<E, C>,
    third: OwnedRoundMaterialSource<E, C>,
    epoch: SecurityEpochTag,
    earlier: RoundMaterial,
    later: RoundMaterial,
)
    requires
        OwnedRoundMaterialSource::<E, C>::may_draw(first, epoch, second, Ok(earlier)),
        OwnedRoundMaterialSource::<E, C>::may_draw(second, epoch, third, Ok(later)),
    ensures
        earlier.is_reserved(),
        later.is_reserved(),
        earlier.response_nonce != earlier.token_nonce,
        later.response_nonce != later.token_nonce,
        earlier.now_unix_seconds <= later.now_unix_seconds,
        earlier.security_round != later.security_round,
{
}

/// A draw succeeds exactly where the clock and both draws are available, the time does
/// not run backwards and the nonces differ; its material is what was drawn, reserved for
/// exactly that. A repeated second is accepted.
pub proof fn draw_succeeds_exactly_on_acceptable_draws<E: RoundEntropy, C: RoundClock>(
    before: OwnedRoundMaterialSource<E, C>,
    epoch: SecurityEpochTag,
    draws: RoundDraws<E>,
    after: OwnedRoundMaterialSource<E, C>,
    reply: Result<RoundMaterial, RoundMaterialUnavailable>,
)
    requires
        before.next_round < u64::MAX,
        material_is_drawn(before, epoch, draws, after, reply),
    ensures
        reply is Ok <==> (draws.told matches Ok(now) && clock_may_follow(
            before.last_observed_seconds,
            now,
        ) && draws.response_reply is Ok && draws.token_reply is Ok && draws.response_nonce
            != draws.token_nonce),
        reply matches Ok(material) ==> {
            &&& draws.told == Ok::<u64, RoundMaterialUnavailable>(material.now_unix_seconds)
            &&& material.response_nonce == draws.response_nonce
            &&& material.token_nonce == draws.token_nonce
            &&& material.security_round.epoch == epoch
            &&& material.is_reserved()
            &&& after.last_observed_seconds == Some(material.now_unix_seconds)
        },
        reply is Err ==> after.last_observed_seconds == before.last_observed_seconds,
{
}

/// Over any number of draws of one source, some of which may fail, the times of those that
/// succeed never decrease, and no two of them are of the same round.
pub proof fn rounds_of_a_source_never_run_backwards<E: RoundEntropy, C: RoundClock>(
    sources: Seq<OwnedRoundMaterialSource<E, C>>,
    epoch: SecurityEpochTag,
    replies: Seq<Result<RoundMaterial, RoundMaterialUnavailable>>,
    earlier: int,
    later: int,
)
    requires
        sources.len() == replies.len() + 1,
        forall|i: int|
            0 <= i < replies.len() ==> OwnedRoundMaterialSource::<E, C>::may_draw(
                sources[i],
                epoch,
                sources[i + 1],
                #[trigger] replies[i],
            ),
        0 <= earlier < later < replies.len(),
        replies[earlier] is Ok,
        replies[later] is Ok,
    ensures
        replies[earlier]->Ok_0.now_unix_seconds <= replies[later]->Ok_0.now_unix_seconds,
        replies[earlier]->Ok_0.security_round != replies[later]->Ok_0.security_round,
{
    lemma_source_only_moves_on(sources, epoch, replies, earlier + 1, later);
    let first = choose|draws: RoundDraws<E>| #[trigger]
        material_is_drawn(
            sources[earlier],
            epoch,
            draws,
            sources[earlier + 1],
            replies[earlier],
        );
    let second = choose|draws: RoundDraws<E>| #[trigger]
        material_is_drawn(sources[later], epoch, draws, sources[later + 1], replies[later]);
    assert(first.told is Ok && second.told is Ok);
}

/// Draws move a source's time and its round number forward only.
proof fn lemma_source_only_moves_on<E: RoundEntropy, C: RoundClock>(
    sources: Seq<OwnedRoundMaterialSource<E, C>>,
    epoch: SecurityEpochTag,
    replies: Seq<Result<RoundMaterial, RoundMaterialUnavailable>>,
    from: int,
    to: int,
)
    requires
        sources.len() == replies.len() + 1,
        forall|i: int|
            0 <= i < replies.len() ==> OwnedRoundMaterialSource::<E, C>::may_draw(
                sources[i],
                epoch,
                sources[i + 1],
                #[trigger] replies[i],
            ),
        0 <= from <= to < sources.len(),
    ensures
        sources[from].next_round <= sources[to].next_round,
        sources[from].last_observed_seconds matches Some(seconds) ==> (
        sources[to].last_observed_seconds matches Some(later) && seconds <= later),
    decreases to - from,
{
    if from < to {
        lemma_source_only_moves_on(sources, epoch, replies, from, to - 1);
        let reply = replies[to - 1];
        assert(OwnedRoundMaterialSource::<E, C>::may_draw(
            sources[to - 1],
            epoch,
            sources[to],
            reply,
        ));
    }
}

/// Once retired, an epoch passes no release check.
pub proof fn retired_epoch_releases_nothing(
    currentness: InProcessSecurityEpochCurrentness,
    expected: SecurityEpochTag,
)
    requires
        !currentness.available,
    ensures
        !currentness.is_current(expected),
{
}

/// A round that is released was reserved and committed under the epoch that is active.
pub proof fn release_claims_are_of_one_round(claim: RoundReleaseClaim, epoch: SecurityEpochTag)
    requires
        claim.is_authorized(epoch),
    ensures
        claim.security_round.epoch == epoch,
        claim.reservation_authority.round == claim.security_round,
        claim.replay_commit_authority.round == claim.security_round,
{
}

/// A release is authorized exactly where the epoch is the active and available one, and
/// both authorities are of the claimed round of it, at the claimed second and with the
/// claimed nonces.
pub proof fn release_is_authorized_by_its_own_round(
    currentness: InProcessSecurityEpochCurrentness,
    claim: RoundReleaseClaim,
    epoch: SecurityEpochTag,
)
    ensures
        currentness.is_current(epoch) <==> currentness.available && currentness.active is Some
            && currentness.active->Some_0.instance == epoch.instance
            && currentness.active->Some_0.stable_binding == epoch.stable_binding,
        claim.is_authorized(epoch) <==> {
            &&& claim.security_round.epoch == epoch
            &&& claim.reservation_authority.round == claim.security_round
            &&& claim.replay_commit_authority.round == claim.security_round
            &&& claim.reservation_authority.now_unix_seconds == claim.now_unix_seconds
            &&& claim.reservation_authority.response_nonce == claim.response_nonce
            &&& claim.reservation_authority.token_nonce == claim.token_nonce
        },
{
}

/// A round is reserved exactly where the clock did not run backwards and the two nonces
/// differ; it is of the observed second, and its reservation is of the same round, second
/// and nonces.
pub proof fn reserved_round_is_what_was_drawn(
    last: Option<u64>,
    now_unix_seconds: u64,
    response_nonce: [u8; ENVELOPE_NONCE_BYTES],
    token_nonce: [u8; ENVELOPE_NONCE_BYTES],
    security_round: SecurityRoundCapture,
)
    ensures
        ({
            let reserved = reserved_round(
                last,
                now_unix_seconds,
                response_nonce,
                token_nonce,
                security_round,
            );
            &&& reserved is Ok <==> (last is None || now_unix_seconds >= last->Some_0)
                && response_nonce != token_nonce
            &&& reserved matches Ok(material) ==> {
                &&& material.now_unix_seconds == now_unix_seconds
                &&& material.response_nonce == response_nonce
                &&& material.token_nonce == token_nonce
                &&& material.security_round == security_round
                &&& material.reservation_authority.round == security_round
                &&& material.reservation_authority.now_unix_seconds == now_unix_seconds
                &&& material.reservation_authority.response_nonce == response_nonce
                &&& material.reservation_authority.token_nonce == token_nonce
            }
        }),
{
}

/// A draw gives material exactly where a number is left for the round, the clock told a
/// second that is not before the last one, both nonces were filled, and they differ. The
/// source then counts one round more and keeps the second; a draw that fails leaves its
/// count and its second as they were, and a draw without a number touches nothing.
pub proof fn source_counts_the_rounds_it_gives<E: RoundEntropy, C: RoundClock>(
    before: OwnedRoundMaterialSource<E, C>,
    epoch: SecurityEpochTag,
    draws: RoundDraws<E>,
    after: OwnedRoundMaterialSource<E, C>,
    reply: Result<RoundMaterial, RoundMaterialUnavailable>,
)
    requires
        material_is_drawn(before, epoch, draws, after, reply),
    ensures
        reply is Ok <==> before.next_round < u64::MAX && draws.told is Ok && (
        before.last_observed_seconds is None || draws.told->Ok_0
            >= before.last_observed_seconds->Some_0) && draws.response_reply is Ok
            && draws.token_reply is Ok && draws.response_nonce != draws.token_nonce,
        reply matches Ok(material) ==> {
            &&& C::may_tell(before.clock, after.clock, draws.told)
            &&& E::may_fill(
                before.entropy,
                draws.middle,
                material.response_nonce@,
                draws.response_reply,
            )
            &&& E::may_fill(
                draws.middle,
                after.entropy,
                material.token_nonce@,
                draws.token_reply,
            )
            &&& material.now_unix_seconds == draws.told->Ok_0
            &&& material.security_round.epoch == epoch
            &&& material.security_round.instance == before.next_round
            &&& material.reservation_authority.round == material.security_round
            &&& material.reservation_authority.now_unix_seconds == material.now_unix_seconds
            &&& material.reservation_authority.response_nonce == material.response_nonce
            &&& material.reservation_authority.token_nonce == material.token_nonce
            &&& after.next_round == before.next_round + 1
            &&& after.last_observed_seconds == Some(material.now_unix_seconds)
        },
        reply is Err ==> after.next_round == before.next_round && after.last_observed_seconds
            == before.last_observed_seconds,
        before.next_round == u64::MAX ==> after == before,
{
}

/// Two leases share the seed of their replay namespace exactly where they are of the same
/// service, owner, key epoch, profile and session; and the seed names each in its place.
pub proof fn namespace_seed_names_its_lease(
    left: SecurityLeaseIdentity,
    left_profile: crate::profile::PrivacyProfile,
    right: SecurityLeaseIdentity,
    right_profile: crate::profile::PrivacyProfile,
)
    ensures
        namespace_seed(left, left_profile) == namespace_seed(right, right_profile) <==> {
            &&& left.service_namespace_id == right.service_namespace_id
            &&& left.owner_generation == right.owner_generation
            &&& left.key_epoch == right.key_epoch
            &&& left.session_binding == right.session_binding
            &&& left_profile.profile_id == right_profile.profile_id
        },
        namespace_seed(left, left_profile).protocol_version == 1,
        namespace_seed(left, left_profile).service_namespace_id == left.service_namespace_id,
        namespace_seed(left, left_profile).owner_generation == left.owner_generation,
        namespace_seed(left, left_profile).key_epoch == left.key_epoch,
        namespace_seed(left, left_profile).session_binding == left.session_binding,
        namespace_seed(left, left_profile).profile_id == left_profile.profile_id,
{
}

/// A minted identity has the two bindings that were drawn, in their order, and the given
/// names; it is given exactly where both draws succeeded, both epochs are above zero, and
/// the service and both bindings have a nonzero byte.
pub proof fn minted_identity_is_what_was_drawn<E: RoundEntropy>(
    key_epoch: u64,
    service_namespace_id: [u8; 16],
    owner_generation: u64,
    before: E,
    draws: BindingDraws<E>,
    after: E,
    result: Result<SecurityLeaseIdentity, UniformExternalFailure>,
)
    requires
        SecurityLeaseIdentity::is_minted(
            key_epoch,
            service_namespace_id,
            owner_generation,
            before,
            draws,
            after,
            result,
        ),
    ensures
        result is Ok <==> draws.session_reply is Ok && draws.epoch_reply is Ok && key_epoch > 0
            && owner_generation > 0 && (exists|i: int|
            0 <= i < 16 && #[trigger] service_namespace_id@[i] > 0) && (exists|i: int|
            0 <= i < 32 && #[trigger] draws.session_binding@[i] > 0) && (exists|i: int|
            0 <= i < 32 && #[trigger] draws.epoch_binding@[i] > 0),
        result matches Ok(identity) ==> {
            &&& identity.key_epoch == key_epoch
            &&& identity.service_namespace_id == service_namespace_id
            &&& identity.owner_generation == owner_generation
            &&& identity.session_binding == draws.session_binding
            &&& identity.security_epoch_binding == draws.epoch_binding
            &&& E::may_fill(
                before,
                draws.middle,
                identity.session_binding@,
                draws.session_reply,
            )
            &&& E::may_fill(
                draws.middle,
                after,
                identity.security_epoch_binding@,
                draws.epoch_reply,
            )
        },
{
}

} // verus!
