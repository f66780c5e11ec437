//! Witness-bound local security state.
//!
//! A successful mutation orders component files first, the fixed local snapshot
//! second, and the external freshness witness last. Any ambiguous local commit
//! or witness advance latches the store unavailable for the rest of its
//! in-process lifetime.

use crate::bytes::all_zero;
use crate::bytes::append;
use crate::bytes::append_u16;
use crate::bytes::append_u64;
use crate::bytes::arrays_equal;
use crate::bytes::bytes_equal;
use crate::bytes::into_array;
use crate::bytes::read_array;
use crate::bytes::read_u16;
use crate::bytes::read_u64;
use crate::digest::blake2s256_digest;
use vstd::prelude::*;

verus! {

pub const SERVICE_ID_BYTES: usize = 16;

pub const PROFILE_ID_BYTES: usize = 16;

pub const SESSION_BINDING_BYTES: usize = 32;

pub const SECURITY_EPOCH_BINDING_BYTES: usize = 32;

pub const STATE_DIGEST_BYTES: usize = 32;

/// `ZORAMSS1`.
pub const SECURITY_STATE_FILE_MAGIC: [u8; 8] = [
    0x5a, 0x4f, 0x52, 0x41, 0x4d, 0x53, 0x53, 0x31,
];

pub const SECURITY_STATE_FILE_VERSION: u16 = 1;

pub const SECURITY_STATE_DIGEST_VERSION: u16 = 1;

/// `zaino-oram/security-state-commitment-digest/v1`, then one zero byte.
pub const SECURITY_STATE_DIGEST_DOMAIN: [u8; 47] = [
    0x7a, 0x61, 0x69, 0x6e, 0x6f, 0x2d, 0x6f, 0x72, 0x61, 0x6d, 0x2f, 0x73,
    0x65, 0x63, 0x75, 0x72, 0x69, 0x74, 0x79, 0x2d, 0x73, 0x74, 0x61, 0x74,
    0x65, 0x2d, 0x63, 0x6f, 0x6d, 0x6d, 0x69, 0x74, 0x6d, 0x65, 0x6e, 0x74,
    0x2d, 0x64, 0x69, 0x67, 0x65, 0x73, 0x74, 0x2f, 0x76, 0x31, 0x00,
];

pub const FILE_MAGIC_START: usize = 0;

pub const FILE_VERSION_START: usize = 8;

pub const SEQUENCE_START: usize = 10;

pub const SERVICE_ID_START: usize = 18;

pub const PROTOCOL_VERSION_START: usize = 34;

pub const OWNER_GENERATION_START: usize = 36;

pub const KEY_EPOCH_START: usize = 44;

pub const PROJECTION_EPOCH_START: usize = 52;

pub const PROFILE_ID_START: usize = 60;

pub const SESSION_BINDING_START: usize = 76;

pub const SECURITY_EPOCH_BINDING_START: usize = 108;

pub const SERVING_IDENTITY_DIGEST_START: usize = 140;

pub const COMPONENT_STATE_DIGEST_START: usize = 172;

pub const PERSISTENT_SECURITY_STATE_BYTES: usize = 204;

/// Monotonic versions and epochs bound into one security identity.
#[derive(Clone, Copy, PartialEq, Eq, Structural)]
pub struct SecurityStateEpochs {
    pub protocol_version: u16,
    pub owner_generation: u64,
    pub key_epoch: u64,
    pub projection_epoch: u64,
}

/// First epoch field that is missing, in the order in which they are reported.
pub open spec fn epochs_error(
    protocol_version: u16,
    owner_generation: u64,
    key_epoch: u64,
    projection_epoch: u64,
) -> Option<SecurityStateValueError> {
    if protocol_version == 0 {
        Some(SecurityStateValueError::ProtocolVersionIsZero)
    } else if owner_generation == 0 {
        Some(SecurityStateValueError::OwnerGenerationIsMissing)
    } else if key_epoch == 0 {
        Some(SecurityStateValueError::KeyEpochIsMissing)
    } else if projection_epoch == 0 {
        Some(SecurityStateValueError::ProjectionEpochIsMissing)
    } else {
        None
    }
}

impl SecurityStateEpochs {
    /// Every field is present.
    pub open spec fn wf(self) -> bool {
        epochs_error(
            self.protocol_version,
            self.owner_generation,
            self.key_epoch,
            self.projection_epoch,
        ) is None
    }

    /// Accepts four nonzero values, and names the first zero one otherwise.
    pub fn new(
        protocol_version: u16,
        owner_generation: u64,
        key_epoch: u64,
        projection_epoch: u64,
    ) -> (result: Result<Self, SecurityStateValueError>)
        ensures
            result == match epochs_error(
                protocol_version,
                owner_generation,
                key_epoch,
                projection_epoch,
            ) {
                Some(error) => Err(error),
                None => Ok(
                    (SecurityStateEpochs {
                        protocol_version,
                        owner_generation,
                        key_epoch,
                        projection_epoch,
                    }),
                ),
            },
    {
        if protocol_version == 0 {
            return Err(SecurityStateValueError::ProtocolVersionIsZero);
        }
        if owner_generation == 0 {
            return Err(SecurityStateValueError::OwnerGenerationIsMissing);
        }
        if key_epoch == 0 {
            return Err(SecurityStateValueError::KeyEpochIsMissing);
        }
        if projection_epoch == 0 {
            return Err(SecurityStateValueError::ProjectionEpochIsMissing);
        }
        Ok(SecurityStateEpochs { protocol_version, owner_generation, key_epoch, projection_epoch })
    }
}

/// Stable identity of one active security owner.
#[derive(Clone, Copy, PartialEq, Eq)]
pub struct SecurityStateIdentity {
    pub service_id: [u8; SERVICE_ID_BYTES],
    pub epochs: SecurityStateEpochs,
    pub profile_id: [u8; PROFILE_ID_BYTES],
    pub session_binding: [u8; SESSION_BINDING_BYTES],
    pub security_epoch_binding: [u8; SECURITY_EPOCH_BINDING_BYTES],
}

/// First identity field that is all zero, in the order in which they are reported.
pub open spec fn identity_error(
    service_id: Seq<u8>,
    profile_id: Seq<u8>,
    session_binding: Seq<u8>,
    security_epoch_binding: Seq<u8>,
) -> Option<SecurityStateValueError> {
    if crate::bytes::is_zero(service_id) {
        Some(SecurityStateValueError::ServiceIdIsEmpty)
    } else if crate::bytes::is_zero(profile_id) {
        Some(SecurityStateValueError::ProfileIdIsEmpty)
    } else if crate::bytes::is_zero(session_binding) {
        Some(SecurityStateValueError::SessionBindingIsEmpty)
    } else if crate::bytes::is_zero(security_epoch_binding) {
        Some(SecurityStateValueError::SecurityEpochBindingIsEmpty)
    } else {
        None
    }
}

/// Why `next` may not follow `current`, in the order in which reasons are reported.
///
/// A successor stays in the namespace of `current` and never lowers an epoch.
/// It either changes nothing, or it is a complete owner rotation: a later owner
/// generation with both bindings replaced.
pub open spec fn successor_error(
    current: SecurityStateIdentity,
    next: SecurityStateIdentity,
) -> Option<SecurityStateSuccessorError> {
    if next.service_id != current.service_id {
        Some(SecurityStateSuccessorError::ServiceIdentityChanged)
    } else if next.epochs.protocol_version != current.epochs.protocol_version {
        Some(SecurityStateSuccessorError::ProtocolVersionChanged)
    } else if next.profile_id != current.profile_id {
        Some(SecurityStateSuccessorError::ProfileIdentityChanged)
    } else if next.epochs.owner_generation < current.epochs.owner_generation {
        Some(SecurityStateSuccessorError::OwnerGenerationRegressed)
    } else if next.epochs.key_epoch < current.epochs.key_epoch {
        Some(SecurityStateSuccessorError::KeyEpochRegressed)
    } else if next.epochs.projection_epoch < current.epochs.projection_epoch {
        Some(SecurityStateSuccessorError::ProjectionEpochRegressed)
    } else if next == current {
        None
    } else if next.epochs.owner_generation == current.epochs.owner_generation {
        Some(SecurityStateSuccessorError::OwnerGenerationDidNotAdvance)
    } else if next.session_binding == current.session_binding {
        Some(SecurityStateSuccessorError::SessionBindingNotRotated)
    } else if next.security_epoch_binding == current.security_epoch_binding {
        Some(SecurityStateSuccessorError::SecurityEpochBindingNotRotated)
    } else {
        None
    }
}

impl SecurityStateIdentity {
    /// Every field is present.
    pub open spec fn wf(self) -> bool {
        &&& self.epochs.wf()
        &&& identity_error(
            self.service_id@,
            self.profile_id@,
            self.session_binding@,
            self.security_epoch_binding@,
        ) is None
    }

    /// Accepts four bindings with a nonzero byte each, and names the first all-zero one otherwise.
    pub fn new(
        service_id: [u8; SERVICE_ID_BYTES],
        epochs: SecurityStateEpochs,
        profile_id: [u8; PROFILE_ID_BYTES],
        session_binding: [u8; SESSION_BINDING_BYTES],
        security_epoch_binding: [u8; SECURITY_EPOCH_BINDING_BYTES],
    ) -> (result: Result<Self, SecurityStateValueError>)
        ensures
            result == match identity_error(
                service_id@,
                profile_id@,
                session_binding@,
                security_epoch_binding@,
            ) {
                Some(error) => Err(error),
                None => Ok(
                    (SecurityStateIdentity {
                        service_id,
                        epochs,
                        profile_id,
                        session_binding,
                        security_epoch_binding,
                    }),
                ),
            },
    {
        if all_zero(&service_id) {
            return Err(SecurityStateValueError::ServiceIdIsEmpty);
        }
        if all_zero(&profile_id) {
            return Err(SecurityStateValueError::ProfileIdIsEmpty);
        }
        if all_zero(&session_binding) {
            return Err(SecurityStateValueError::SessionBindingIsEmpty);
        }
        if all_zero(&security_epoch_binding) {
            return Err(SecurityStateValueError::SecurityEpochBindingIsEmpty);
        }
        Ok(
            SecurityStateIdentity {
                service_id,
                epochs,
                profile_id,
                session_binding,
                security_epoch_binding,
            },
        )
    }

    /// Validates one same-namespace state update or complete owner rotation.
    pub fn validate_successor(&self, next: &Self) -> (result: Result<
        (),
        SecurityStateSuccessorError,
    >)
        ensures
            result == match successor_error(*self, *next) {
                Some(error) => Err(error),
                None => Ok(()),
            },
            result is Ok <==> next.service_id == self.service_id && next.epochs.protocol_version
                == self.epochs.protocol_version && next.profile_id == self.profile_id && (*next
                == *self || (next.epochs.owner_generation > self.epochs.owner_generation
                && next.epochs.key_epoch >= self.epochs.key_epoch && next.epochs.projection_epoch
                >= self.epochs.projection_epoch && next.session_binding != self.session_binding
                && next.security_epoch_binding != self.security_epoch_binding)),
    {
        if !arrays_equal(&next.service_id, &self.service_id) {
            return Err(SecurityStateSuccessorError::ServiceIdentityChanged);
        }
        if next.epochs.protocol_version != self.epochs.protocol_version {
            return Err(SecurityStateSuccessorError::ProtocolVersionChanged);
        }
        if !arrays_equal(&next.profile_id, &self.profile_id) {
            return Err(SecurityStateSuccessorError::ProfileIdentityChanged);
        }
        if next.epochs.owner_generation < self.epochs.owner_generation {
            return Err(SecurityStateSuccessorError::OwnerGenerationRegressed);
        }
        if next.epochs.key_epoch < self.epochs.key_epoch {
            return Err(SecurityStateSuccessorError::KeyEpochRegressed);
        }
        if next.epochs.projection_epoch < self.epochs.projection_epoch {
            return Err(SecurityStateSuccessorError::ProjectionEpochRegressed);
        }
        let epochs_changed = next.epochs.owner_generation != self.epochs.owner_generation
            || next.epochs.key_epoch != self.epochs.key_epoch || next.epochs.projection_epoch
            != self.epochs.projection_epoch;
        let session_rotated = !arrays_equal(&next.session_binding, &self.session_binding);
        let epoch_binding_rotated = !arrays_equal(
            &next.security_epoch_binding,
            &self.security_epoch_binding,
        );
        if !epochs_changed && !session_rotated && !epoch_binding_rotated {
            return Ok(());
        }
        if next.epochs.owner_generation == self.epochs.owner_generation {
            return Err(SecurityStateSuccessorError::OwnerGenerationDidNotAdvance);
        }
        if !session_rotated {
            return Err(SecurityStateSuccessorError::SessionBindingNotRotated);
        }
        if !epoch_binding_rotated {
            return Err(SecurityStateSuccessorError::SecurityEpochBindingNotRotated);
        }
        Ok(())
    }

    /// Whether two identities agree in every field.
    pub fn same(&self, other: &Self) -> (same: bool)
        ensures
            same == (*self == *other),
    {
        arrays_equal(&self.service_id, &other.service_id) && self.epochs == other.epochs
            && arrays_equal(&self.profile_id, &other.profile_id) && arrays_equal(
            &self.session_binding,
            &other.session_binding,
        ) && arrays_equal(&self.security_epoch_binding, &other.security_epoch_binding)
    }

    /// The profile this owner serves.
    pub fn profile_id(&self) -> (profile_id: [u8; PROFILE_ID_BYTES])
        ensures
            profile_id == self.profile_id,
    {
        self.profile_id
    }

    /// Redacted rendering for logs.
    pub fn debug_text(&self) -> (text: &'static str)
        ensures
            text@ == "SecurityStateIdentity { ..REDACTED.. }"@,
    {
        "SecurityStateIdentity { ..REDACTED.. }"
    }
}

/// Exact identity plus opaque digests of serving and mutable component state.
#[derive(Clone, Copy, PartialEq, Eq)]
pub struct SecurityStateCommitment {
    pub identity: SecurityStateIdentity,
    pub serving_identity_digest: [u8; STATE_DIGEST_BYTES],
    pub component_state_digest: [u8; STATE_DIGEST_BYTES],
}

/// First commitment digest that is all zero.
pub open spec fn commitment_error(
    serving_identity_digest: Seq<u8>,
    component_state_digest: Seq<u8>,
) -> Option<SecurityStateValueError> {
    if crate::bytes::is_zero(serving_identity_digest) {
        Some(SecurityStateValueError::ServingIdentityDigestIsEmpty)
    } else if crate::bytes::is_zero(component_state_digest) {
        Some(SecurityStateValueError::ComponentStateDigestIsEmpty)
    } else {
        None
    }
}

impl SecurityStateCommitment {
    /// Every field is present.
    pub open spec fn wf(self) -> bool {
        &&& self.identity.wf()
        &&& commitment_error(self.serving_identity_digest@, self.component_state_digest@) is None
    }

    /// The commitment's fields, in the order in which every encoding writes them.
    #[verifier::opaque]
    pub open spec fn field_bytes(self) -> Seq<u8> {
        self.identity.service_id@ + crate::bytes::u16_be(self.identity.epochs.protocol_version)
            + crate::bytes::u64_be(self.identity.epochs.owner_generation) + crate::bytes::u64_be(
            self.identity.epochs.key_epoch,
        ) + crate::bytes::u64_be(self.identity.epochs.projection_epoch) + self.identity.profile_id@
            + self.identity.session_binding@ + self.identity.security_epoch_binding@
            + self.serving_identity_digest@ + self.component_state_digest@
    }

    /// What the commitment's digest is taken over.
    #[verifier::opaque]
    pub open spec fn digest_preimage(self) -> Seq<u8> {
        SECURITY_STATE_DIGEST_DOMAIN@ + crate::bytes::u16_be(SECURITY_STATE_DIGEST_VERSION)
            + self.field_bytes()
    }

    /// Accepts two digests with a nonzero byte each.
    pub fn new(
        identity: SecurityStateIdentity,
        serving_identity_digest: [u8; STATE_DIGEST_BYTES],
        component_state_digest: [u8; STATE_DIGEST_BYTES],
    ) -> (result: Result<Self, SecurityStateValueError>)
        ensures
            result == match commitment_error(serving_identity_digest@, component_state_digest@) {
                Some(error) => Err(error),
                None => Ok(
                    (SecurityStateCommitment {
                        identity,
                        serving_identity_digest,
                        component_state_digest,
                    }),
                ),
            },
    {
        if all_zero(&serving_identity_digest) {
            return Err(SecurityStateValueError::ServingIdentityDigestIsEmpty);
        }
        if all_zero(&component_state_digest) {
            return Err(SecurityStateValueError::ComponentStateDigestIsEmpty);
        }
        Ok(
            SecurityStateCommitment {
                identity,
                serving_identity_digest,
                component_state_digest,
            },
        )
    }

    /// Appends the commitment's fields in their fixed order.
    fn append_fields(&self, buffer: &mut Vec<u8>)
        ensures
            final(buffer)@ == old(buffer)@ + self.field_bytes(),
    {
        append(buffer, self.identity.service_id.as_slice());
        append_u16(buffer, self.identity.epochs.protocol_version);
        append_u64(buffer, self.identity.epochs.owner_generation);
        append_u64(buffer, self.identity.epochs.key_epoch);
        append_u64(buffer, self.identity.epochs.projection_epoch);
        append(buffer, self.identity.profile_id.as_slice());
        append(buffer, self.identity.session_binding.as_slice());
        append(buffer, self.identity.security_epoch_binding.as_slice());
        append(buffer, self.serving_identity_digest.as_slice());
        append(buffer, self.component_state_digest.as_slice());
        proof {
            reveal(SecurityStateCommitment::field_bytes);
        }
        assert(buffer@ =~= old(buffer)@ + self.field_bytes());
    }

    /// Domain-separated digest over every field of the commitment.
    pub fn digest(&self) -> (digest: SecurityStateDigest)
        ensures
            digest.0@ == crate::digest::blake2s256(self.digest_preimage()),
    {
        let mut preimage: Vec<u8> = Vec::new();
        append(&mut preimage, SECURITY_STATE_DIGEST_DOMAIN.as_slice());
        append_u16(&mut preimage, SECURITY_STATE_DIGEST_VERSION);
        self.append_fields(&mut preimage);
        proof {
            reveal(SecurityStateCommitment::digest_preimage);
        }
        assert(preimage@ =~= self.digest_preimage());
        SecurityStateDigest(blake2s256_digest(preimage.as_slice()))
    }

    /// Whether two commitments agree in every field.
    pub fn same(&self, other: &Self) -> (same: bool)
        ensures
            same == (*self == *other),
    {
        self.identity.same(&other.identity) && arrays_equal(
            &self.serving_identity_digest,
            &other.serving_identity_digest,
        ) && arrays_equal(&self.component_state_digest, &other.component_state_digest)
    }

    /// Redacted rendering for logs.
    pub fn debug_text(&self) -> (text: &'static str)
        ensures
            text@ == "SecurityStateCommitment { ..REDACTED.. }"@,
    {
        "SecurityStateCommitment { ..REDACTED.. }"
    }
}

/// One witness-sequenced security-state snapshot.
#[derive(Clone, Copy, PartialEq, Eq)]
pub struct SecurityStateSnapshot {
    pub sequence: u64,
    pub commitment: SecurityStateCommitment,
}

impl SecurityStateSnapshot {
    /// Every field is present.
    pub open spec fn wf(self) -> bool {
        self.sequence != 0 && self.commitment.wf()
    }

    /// The fixed-width file contents of the snapshot.
    #[verifier::opaque]
    pub open spec fn encoded(self) -> Seq<u8> {
        SECURITY_STATE_FILE_MAGIC@ + crate::bytes::u16_be(SECURITY_STATE_FILE_VERSION)
            + crate::bytes::u64_be(self.sequence) + self.commitment.field_bytes()
    }

    /// What the external witness holds for this snapshot.
    pub open spec fn has_freshness(self, freshness: SecurityFreshness) -> bool {
        &&& freshness.sequence == self.sequence
        &&& freshness.state_digest.0@ == crate::digest::blake2s256(
            self.commitment.digest_preimage(),
        )
    }

    /// Accepts a nonzero sequence.
    pub fn new(sequence: u64, commitment: SecurityStateCommitment) -> (result: Result<
        Self,
        SecurityStateValueError,
    >)
        ensures
            result == if sequence == 0 {
                Err(SecurityStateValueError::SequenceIsMissing)
            } else {
                Ok((SecurityStateSnapshot { sequence, commitment }))
            },
    {
        if sequence == 0 {
            return Err(SecurityStateValueError::SequenceIsMissing);
        }
        Ok(SecurityStateSnapshot { sequence, commitment })
    }

    /// First snapshot of an identity.
    pub fn initial_with_component_state_digest(
        identity: SecurityStateIdentity,
        serving_identity_digest: [u8; STATE_DIGEST_BYTES],
        component_state_digest: [u8; STATE_DIGEST_BYTES],
    ) -> (result: Result<Self, SecurityStateValueError>)
        ensures
            result == match commitment_error(serving_identity_digest@, component_state_digest@) {
                Some(error) => Err(error),
                None => Ok(
                    (SecurityStateSnapshot {
                        sequence: 1,
                        commitment: SecurityStateCommitment {
                            identity,
                            serving_identity_digest,
                            component_state_digest,
                        },
                    }),
                ),
            },
    {
        match SecurityStateCommitment::new(
            identity,
            serving_identity_digest,
            component_state_digest,
        ) {
            Ok(commitment) => SecurityStateSnapshot::new(1, commitment),
            Err(error) => Err(error),
        }
    }

    /// Sequence that the next snapshot must carry.
    pub fn checked_successor_sequence(&self) -> (result: Result<u64, SecurityStateValueError>)
        ensures
            result == if self.sequence == u64::MAX {
                Err(SecurityStateValueError::SequenceOverflow)
            } else {
                Ok((self.sequence + 1) as u64)
            },
    {
        if self.sequence == u64::MAX {
            return Err(SecurityStateValueError::SequenceOverflow);
        }
        Ok(self.sequence + 1)
    }

    /// Next snapshot of the same owner, with new component state.
    pub fn successor_with_component_state_digest(
        &self,
        component_state_digest: [u8; STATE_DIGEST_BYTES],
    ) -> (result: Result<Self, SecurityStateValueError>)
        ensures
            result == if self.sequence == u64::MAX {
                Err(SecurityStateValueError::SequenceOverflow)
            } else {
                match commitment_error(
                    self.commitment.serving_identity_digest@,
                    component_state_digest@,
                ) {
                    Some(error) => Err(error),
                    None => Ok(
                        (SecurityStateSnapshot {
                            sequence: (self.sequence + 1) as u64,
                            commitment: SecurityStateCommitment {
                                identity: self.commitment.identity,
                                serving_identity_digest: self.commitment.serving_identity_digest,
                                component_state_digest,
                            },
                        }),
                    ),
                }
            },
    {
        let sequence: u64 = match self.checked_successor_sequence() {
            Ok(sequence) => sequence,
            Err(error) => {
                return Err(error);
            },
        };
        match SecurityStateCommitment::new(
            self.commitment.identity,
            self.commitment.serving_identity_digest,
            component_state_digest,
        ) {
            Ok(commitment) => SecurityStateSnapshot::new(sequence, commitment),
            Err(error) => Err(error),
        }
    }

    pub fn sequence(&self) -> (sequence: u64)
        ensures
            sequence == self.sequence,
    {
        self.sequence
    }

    pub fn profile_id(&self) -> (profile_id: [u8; PROFILE_ID_BYTES])
        ensures
            profile_id == self.commitment.identity.profile_id,
    {
        self.commitment.identity.profile_id()
    }

    pub fn component_state_digest(&self) -> (digest: [u8; STATE_DIGEST_BYTES])
        ensures
            digest == self.commitment.component_state_digest,
    {
        self.commitment.component_state_digest
    }

    /// Sequence and digest that the external witness must hold.
    pub fn freshness(&self) -> (freshness: SecurityFreshness)
        ensures
            self.has_freshness(freshness),
    {
        SecurityFreshness { sequence: self.sequence, state_digest: self.commitment.digest() }
    }

    /// Whether two snapshots agree in every field.
    pub fn same(&self, other: &Self) -> (same: bool)
        ensures
            same == (*self == *other),
    {
        self.sequence == other.sequence && self.commitment.same(&other.commitment)
    }

    /// Redacted rendering for logs.
    pub fn debug_text(&self) -> (text: &'static str)
        ensures
            text@ == "SecurityStateSnapshot { ..REDACTED.. }"@,
    {
        "SecurityStateSnapshot { ..REDACTED.. }"
    }
}

/// Whether two optional snapshots agree.
pub fn same_snapshot(
    left: &Option<SecurityStateSnapshot>,
    right: &Option<SecurityStateSnapshot>,
) -> (same: bool)
    ensures
        same == (*left == *right),
{
    match (left, right) {
        (None, None) => true,
        (Some(left), Some(right)) => left.same(right),
        _ => false,
    }
}

#[derive(Debug, Clone, Copy, PartialEq, Eq, Structural)]
pub enum SecurityStateValueError {
    ServiceIdIsEmpty,
    ProtocolVersionIsZero,
    OwnerGenerationIsMissing,
    KeyEpochIsMissing,
    ProjectionEpochIsMissing,
    ProfileIdIsEmpty,
    SessionBindingIsEmpty,
    SecurityEpochBindingIsEmpty,
    ServingIdentityDigestIsEmpty,
    ComponentStateDigestIsEmpty,
    SequenceIsMissing,
    SequenceOverflow,
}

impl SecurityStateValueError {
    pub open spec fn text(self) -> Seq<char> {
        match self {
            Self::ServiceIdIsEmpty => "security state has a zero service identity"@,
            Self::ProtocolVersionIsZero => "security state has a zero protocol version"@,
            Self::OwnerGenerationIsMissing => "security state has a zero owner generation"@,
            Self::KeyEpochIsMissing => "security state has a zero key epoch"@,
            Self::ProjectionEpochIsMissing => "security state has a zero projection epoch"@,
            Self::ProfileIdIsEmpty => "security state has a zero profile identity"@,
            Self::SessionBindingIsEmpty => "security state has a zero session binding"@,
            Self::SecurityEpochBindingIsEmpty =>
                "security state has a zero security epoch binding"@,
            Self::ServingIdentityDigestIsEmpty =>
                "security state has a zero serving identity digest"@,
            Self::ComponentStateDigestIsEmpty =>
                "security state has a zero component-state digest"@,
            Self::SequenceIsMissing => "security state has a zero sequence"@,
            Self::SequenceOverflow => "security state sequence is exhausted"@,
        }
    }

    /// Text shown to an operator.
    pub fn message(&self) -> (text: &'static str)
        ensures
            text@ == self.text(),
    {
        match self {
            Self::ServiceIdIsEmpty => "security state has a zero service identity",
            Self::ProtocolVersionIsZero => "security state has a zero protocol version",
            Self::OwnerGenerationIsMissing => "security state has a zero owner generation",
            Self::KeyEpochIsMissing => "security state has a zero key epoch",
            Self::ProjectionEpochIsMissing => "security state has a zero projection epoch",
            Self::ProfileIdIsEmpty => "security state has a zero profile identity",
            Self::SessionBindingIsEmpty => "security state has a zero session binding",
            Self::SecurityEpochBindingIsEmpty => "security state has a zero security epoch binding",
            Self::ServingIdentityDigestIsEmpty =>
                "security state has a zero serving identity digest",
            Self::ComponentStateDigestIsEmpty => "security state has a zero component-state digest",
            Self::SequenceIsMissing => "security state has a zero sequence",
            Self::SequenceOverflow => "security state sequence is exhausted",
        }
    }
}

#[derive(Debug, Clone, Copy, PartialEq, Eq, Structural)]
pub enum SecurityStateSuccessorError {
    ServiceIdentityChanged,
    ProtocolVersionChanged,
    ProfileIdentityChanged,
    OwnerGenerationRegressed,
    KeyEpochRegressed,
    ProjectionEpochRegressed,
    OwnerGenerationDidNotAdvance,
    SessionBindingNotRotated,
    SecurityEpochBindingNotRotated,
}

impl SecurityStateSuccessorError {
    /// Text shown to an operator: the same for every reason.
    pub fn message(&self) -> (text: &'static str)
        ensures
            text@ == "security state identity transition is invalid"@,
    {
        "security state identity transition is invalid"
    }
}

/// Content identity carried by the external witness.
#[derive(Clone, Copy, PartialEq, Eq)]
pub struct SecurityStateDigest(pub [u8; STATE_DIGEST_BYTES]);

impl SecurityStateDigest {
    /// Redacted rendering for logs.
    pub fn debug_text(&self) -> (text: &'static str)
        ensures
            text@ == "SecurityStateDigest([REDACTED])"@,
    {
        "SecurityStateDigest([REDACTED])"
    }
}

/// Monotonic sequence and exact state digest named by an external authority.
#[derive(Clone, Copy, PartialEq, Eq)]
pub struct SecurityFreshness {
    pub sequence: u64,
    pub state_digest: SecurityStateDigest,
}

impl SecurityFreshness {
    pub fn sequence(&self) -> (sequence: u64)
        ensures
            sequence == self.sequence,
    {
        self.sequence
    }

    /// Whether two freshness values agree in every field.
    pub fn same(&self, other: &Self) -> (same: bool)
        ensures
            same == (*self == *other),
    {
        self.sequence == other.sequence && arrays_equal(
            &self.state_digest.0,
            &other.state_digest.0,
        )
    }

    /// Redacted rendering for logs.
    pub fn debug_text(&self) -> (text: &'static str)
        ensures
            text@ == "SecurityFreshness { ..REDACTED.. }"@,
    {
        "SecurityFreshness { ..REDACTED.. }"
    }
}

/// Fixed-width bytes for one local security-state snapshot.
#[derive(Clone, Copy, PartialEq, Eq)]
pub struct PersistentSecurityState(pub [u8; PERSISTENT_SECURITY_STATE_BYTES]);

/// Why 204 bytes are not a security state, in the order in which reasons are reported.
#[verifier::opaque]
pub open spec fn decode_error(bytes: Seq<u8>) -> Option<PersistentSecurityStateError> {
    let version = crate::bytes::be_u16(bytes.subrange(8, 10)) as u16;
    let epochs = epochs_error(
        crate::bytes::be_u16(bytes.subrange(34, 36)) as u16,
        crate::bytes::be_u64(bytes.subrange(36, 44)) as u64,
        crate::bytes::be_u64(bytes.subrange(44, 52)) as u64,
        crate::bytes::be_u64(bytes.subrange(52, 60)) as u64,
    );
    let identity = identity_error(
        bytes.subrange(18, 34),
        bytes.subrange(60, 76),
        bytes.subrange(76, 108),
        bytes.subrange(108, 140),
    );
    let commitment = commitment_error(bytes.subrange(140, 172), bytes.subrange(172, 204));
    if bytes.subrange(0, 8) != SECURITY_STATE_FILE_MAGIC@ {
        Some(PersistentSecurityStateError::InvalidMagic)
    } else if version != SECURITY_STATE_FILE_VERSION {
        Some(PersistentSecurityStateError::UnsupportedVersion { actual: version })
    } else if epochs is Some {
        Some(PersistentSecurityStateError::InvalidState(epochs->0))
    } else if identity is Some {
        Some(PersistentSecurityStateError::InvalidState(identity->0))
    } else if commitment is Some {
        Some(PersistentSecurityStateError::InvalidState(commitment->0))
    } else if crate::bytes::be_u64(bytes.subrange(10, 18)) == 0 {
        Some(PersistentSecurityStateError::InvalidState(SecurityStateValueError::SequenceIsMissing))
    } else {
        None
    }
}

/// What reading 204 bytes gives: the valid snapshot whose encoding they are, or the first fault.
pub open spec fn decodes_to(
    bytes: Seq<u8>,
    result: Result<SecurityStateSnapshot, PersistentSecurityStateError>,
) -> bool {
    match result {
        Ok(state) => decode_error(bytes) is None && state.wf() && state.encoded() == bytes,
        Err(error) => decode_error(bytes) == Some(error),
    }
}

/// The snapshot's fields lie at their fixed offsets.
pub proof fn lemma_encoded_layout(state: SecurityStateSnapshot)
    ensures
        state.encoded().len() == PERSISTENT_SECURITY_STATE_BYTES,
        state.encoded().subrange(0, 8) == SECURITY_STATE_FILE_MAGIC@,
        state.encoded().subrange(8, 10) == crate::bytes::u16_be(SECURITY_STATE_FILE_VERSION),
        state.encoded().subrange(10, 18) == crate::bytes::u64_be(state.sequence),
        state.encoded().subrange(18, 34) == state.commitment.identity.service_id@,
        state.encoded().subrange(34, 36) == crate::bytes::u16_be(
            state.commitment.identity.epochs.protocol_version,
        ),
        state.encoded().subrange(36, 44) == crate::bytes::u64_be(
            state.commitment.identity.epochs.owner_generation,
        ),
        state.encoded().subrange(44, 52) == crate::bytes::u64_be(
            state.commitment.identity.epochs.key_epoch,
        ),
        state.encoded().subrange(52, 60) == crate::bytes::u64_be(
            state.commitment.identity.epochs.projection_epoch,
        ),
        state.encoded().subrange(60, 76) == state.commitment.identity.profile_id@,
        state.encoded().subrange(76, 108) == state.commitment.identity.session_binding@,
        state.encoded().subrange(108, 140) == state.commitment.identity.security_epoch_binding@,
        state.encoded().subrange(140, 172) == state.commitment.serving_identity_digest@,
        state.encoded().subrange(172, 204) == state.commitment.component_state_digest@,
{
    reveal(SecurityStateCommitment::field_bytes);
    reveal(SecurityStateSnapshot::encoded);
    let bytes = state.encoded();
    let identity = state.commitment.identity;
    assert(bytes.subrange(0, 8) =~= SECURITY_STATE_FILE_MAGIC@);
    assert(bytes.subrange(8, 10) =~= crate::bytes::u16_be(SECURITY_STATE_FILE_VERSION));
    assert(bytes.subrange(10, 18) =~= crate::bytes::u64_be(state.sequence));
    assert(bytes.subrange(18, 34) =~= identity.service_id@);
    assert(bytes.subrange(34, 36) =~= crate::bytes::u16_be(identity.epochs.protocol_version));
    assert(bytes.subrange(36, 44) =~= crate::bytes::u64_be(identity.epochs.owner_generation));
    assert(bytes.subrange(44, 52) =~= crate::bytes::u64_be(identity.epochs.key_epoch));
    assert(bytes.subrange(52, 60) =~= crate::bytes::u64_be(identity.epochs.projection_epoch));
    assert(bytes.subrange(60, 76) =~= identity.profile_id@);
    assert(bytes.subrange(76, 108) =~= identity.session_binding@);
    assert(bytes.subrange(108, 140) =~= identity.security_epoch_binding@);
    assert(bytes.subrange(140, 172) =~= state.commitment.serving_identity_digest@);
    assert(bytes.subrange(172, 204) =~= state.commitment.component_state_digest@);
}

impl PersistentSecurityState {
    /// Encodes one snapshot.
    pub fn from_business(state: &SecurityStateSnapshot) -> (persistent: Self)
        ensures
            persistent.0@ == state.encoded(),
    {
        let mut buffer: Vec<u8> = Vec::new();
        append(&mut buffer, SECURITY_STATE_FILE_MAGIC.as_slice());
        append_u16(&mut buffer, SECURITY_STATE_FILE_VERSION);
        append_u64(&mut buffer, state.sequence);
        state.commitment.append_fields(&mut buffer);
        proof {
            reveal(SecurityStateSnapshot::encoded);
            assert(buffer@ =~= state.encoded());
            lemma_encoded_layout(*state);
        }
        PersistentSecurityState(into_array(&buffer))
    }

    /// Decodes and validates one fixed-width local snapshot.
    ///
    /// An accepted value is the one whose encoding these bytes are.
    pub fn into_business(self) -> (result: Result<
        SecurityStateSnapshot,
        PersistentSecurityStateError,
    >)
        ensures
            decodes_to(self.0@, result),
    {
        proof {
            reveal(decode_error);
        }
        let bytes = self.0.as_slice();
        let magic: [u8; 8] = read_array(bytes, FILE_MAGIC_START);
        if !bytes_equal(magic.as_slice(), SECURITY_STATE_FILE_MAGIC.as_slice()) {
            return Err(PersistentSecurityStateError::InvalidMagic);
        }
        let file_version: u16 = read_u16(bytes, FILE_VERSION_START);
        if file_version != SECURITY_STATE_FILE_VERSION {
            return Err(PersistentSecurityStateError::UnsupportedVersion { actual: file_version });
        }
        let sequence: u64 = read_u64(bytes, SEQUENCE_START);
        let epochs = match SecurityStateEpochs::new(
            read_u16(bytes, PROTOCOL_VERSION_START),
            read_u64(bytes, OWNER_GENERATION_START),
            read_u64(bytes, KEY_EPOCH_START),
            read_u64(bytes, PROJECTION_EPOCH_START),
        ) {
            Ok(epochs) => epochs,
            Err(error) => {
                return Err(PersistentSecurityStateError::InvalidState(error));
            },
        };
        let identity = match SecurityStateIdentity::new(
            read_array(bytes, SERVICE_ID_START),
            epochs,
            read_array(bytes, PROFILE_ID_START),
            read_array(bytes, SESSION_BINDING_START),
            read_array(bytes, SECURITY_EPOCH_BINDING_START),
        ) {
            Ok(identity) => identity,
            Err(error) => {
                return Err(PersistentSecurityStateError::InvalidState(error));
            },
        };
        let commitment = match SecurityStateCommitment::new(
            identity,
            read_array(bytes, SERVING_IDENTITY_DIGEST_START),
            read_array(bytes, COMPONENT_STATE_DIGEST_START),
        ) {
            Ok(commitment) => commitment,
            Err(error) => {
                return Err(PersistentSecurityStateError::InvalidState(error));
            },
        };
        match SecurityStateSnapshot::new(sequence, commitment) {
            Ok(state) => {
                proof {
                    lemma_fields_determine_bytes(state, self.0@);
                }
                Ok(state)
            },
            Err(error) => Err(PersistentSecurityStateError::InvalidState(error)),
        }
    }

    /// Accepts exactly 204 bytes.
    pub fn try_from_bytes(bytes: &[u8]) -> (result: Result<Self, PersistentSecurityStateError>)
        ensures
            match result {
                Ok(persistent) => persistent.0@ == bytes@,
                Err(error) => bytes@.len() != PERSISTENT_SECURITY_STATE_BYTES && error
                    == PersistentSecurityStateError::InvalidFixedLayout,
            },
    {
        if bytes.len() != PERSISTENT_SECURITY_STATE_BYTES {
            return Err(PersistentSecurityStateError::InvalidFixedLayout);
        }
        let array = read_array::<PERSISTENT_SECURITY_STATE_BYTES>(bytes, 0);
        assert(bytes@.subrange(0, bytes@.len() as int) =~= bytes@);
        Ok(PersistentSecurityState(array))
    }

    pub fn as_bytes(&self) -> (bytes: &[u8; PERSISTENT_SECURITY_STATE_BYTES])
        ensures
            *bytes == self.0,
    {
        &self.0
    }
}

/// Bytes that hold a snapshot's fields at their offsets are its encoding.
proof fn lemma_fields_determine_bytes(state: SecurityStateSnapshot, bytes: Seq<u8>)
    requires
        bytes.len() == PERSISTENT_SECURITY_STATE_BYTES,
        bytes.subrange(0, 8) == SECURITY_STATE_FILE_MAGIC@,
        crate::bytes::be_u16(bytes.subrange(8, 10)) == SECURITY_STATE_FILE_VERSION,
        crate::bytes::be_u64(bytes.subrange(10, 18)) == state.sequence,
        bytes.subrange(18, 34) == state.commitment.identity.service_id@,
        crate::bytes::be_u16(bytes.subrange(34, 36))
            == state.commitment.identity.epochs.protocol_version,
        crate::bytes::be_u64(bytes.subrange(36, 44))
            == state.commitment.identity.epochs.owner_generation,
        crate::bytes::be_u64(bytes.subrange(44, 52)) == state.commitment.identity.epochs.key_epoch,
        crate::bytes::be_u64(bytes.subrange(52, 60))
            == state.commitment.identity.epochs.projection_epoch,
        bytes.subrange(60, 76) == state.commitment.identity.profile_id@,
        bytes.subrange(76, 108) == state.commitment.identity.session_binding@,
        bytes.subrange(108, 140) == state.commitment.identity.security_epoch_binding@,
        bytes.subrange(140, 172) == state.commitment.serving_identity_digest@,
        bytes.subrange(172, 204) == state.commitment.component_state_digest@,
    ensures
        state.encoded() == bytes,
{
    lemma_encoded_layout(state);
    crate::bytes::lemma_u16_canonical(bytes.subrange(8, 10));
    crate::bytes::lemma_u64_canonical(bytes.subrange(10, 18));
    crate::bytes::lemma_u16_canonical(bytes.subrange(34, 36));
    crate::bytes::lemma_u64_canonical(bytes.subrange(36, 44));
    crate::bytes::lemma_u64_canonical(bytes.subrange(44, 52));
    crate::bytes::lemma_u64_canonical(bytes.subrange(52, 60));
    let encoded = state.encoded();
    crate::bytes::lemma_agreement_extends(encoded, bytes, 8, 10);
    crate::bytes::lemma_agreement_extends(encoded, bytes, 10, 18);
    crate::bytes::lemma_agreement_extends(encoded, bytes, 18, 34);
    crate::bytes::lemma_agreement_extends(encoded, bytes, 34, 36);
    crate::bytes::lemma_agreement_extends(encoded, bytes, 36, 44);
    crate::bytes::lemma_agreement_extends(encoded, bytes, 44, 52);
    crate::bytes::lemma_agreement_extends(encoded, bytes, 52, 60);
    crate::bytes::lemma_agreement_extends(encoded, bytes, 60, 76);
    crate::bytes::lemma_agreement_extends(encoded, bytes, 76, 108);
    crate::bytes::lemma_agreement_extends(encoded, bytes, 108, 140);
    crate::bytes::lemma_agreement_extends(encoded, bytes, 140, 172);
    crate::bytes::lemma_agreement_extends(encoded, bytes, 172, 204);
    assert(encoded.subrange(0, 204) =~= encoded);
    assert(bytes.subrange(0, 204) =~= bytes);
}

/// Two snapshots with the same file contents are the same snapshot.
pub proof fn encoding_is_injective(left: SecurityStateSnapshot, right: SecurityStateSnapshot)
    requires
        left.encoded() == right.encoded(),
    ensures
        left == right,
{
    lemma_encoded_layout(left);
    lemma_encoded_layout(right);
    let (a, b) = (left.commitment.identity, right.commitment.identity);
    crate::bytes::lemma_u64_round_trip(left.sequence);
    crate::bytes::lemma_u64_round_trip(right.sequence);
    crate::bytes::lemma_u16_round_trip(a.epochs.protocol_version);
    crate::bytes::lemma_u16_round_trip(b.epochs.protocol_version);
    crate::bytes::lemma_u64_round_trip(a.epochs.owner_generation);
    crate::bytes::lemma_u64_round_trip(b.epochs.owner_generation);
    crate::bytes::lemma_u64_round_trip(a.epochs.key_epoch);
    crate::bytes::lemma_u64_round_trip(b.epochs.key_epoch);
    crate::bytes::lemma_u64_round_trip(a.epochs.projection_epoch);
    crate::bytes::lemma_u64_round_trip(b.epochs.projection_epoch);
    crate::bytes::lemma_array_extensional(a.service_id, b.service_id);
    crate::bytes::lemma_array_extensional(a.profile_id, b.profile_id);
    crate::bytes::lemma_array_extensional(a.session_binding, b.session_binding);
    crate::bytes::lemma_array_extensional(a.security_epoch_binding, b.security_epoch_binding);
    crate::bytes::lemma_array_extensional(
        left.commitment.serving_identity_digest,
        right.commitment.serving_identity_digest,
    );
    crate::bytes::lemma_array_extensional(
        left.commitment.component_state_digest,
        right.commitment.component_state_digest,
    );
}

/// What was written is accepted when it is read.
pub proof fn lemma_encoding_is_accepted(state: SecurityStateSnapshot)
    requires
        state.wf(),
    ensures
        state.encoded().len() == PERSISTENT_SECURITY_STATE_BYTES,
        decode_error(state.encoded()) is None,
{
    lemma_encoded_layout(state);
    let epochs = state.commitment.identity.epochs;
    crate::bytes::lemma_u16_round_trip(SECURITY_STATE_FILE_VERSION);
    crate::bytes::lemma_u64_round_trip(state.sequence);
    crate::bytes::lemma_u16_round_trip(epochs.protocol_version);
    crate::bytes::lemma_u64_round_trip(epochs.owner_generation);
    crate::bytes::lemma_u64_round_trip(epochs.key_epoch);
    crate::bytes::lemma_u64_round_trip(epochs.projection_epoch);
    reveal(decode_error);
}

/// Reading back what was written gives the snapshot that was written.
pub proof fn reading_back_gives_what_was_written(
    state: SecurityStateSnapshot,
    result: Result<SecurityStateSnapshot, PersistentSecurityStateError>,
)
    requires
        state.wf(),
        decodes_to(state.encoded(), result),
    ensures
        result == Ok::<SecurityStateSnapshot, PersistentSecurityStateError>(state),
{
    lemma_encoding_is_accepted(state);
    if let Ok(read) = result {
        encoding_is_injective(read, state);
    }
}

/// The commitment's digest is taken over a string that names every field of it:
/// two commitments with the same string are the same commitment.
pub proof fn commitment_digest_binds_every_field(
    left: SecurityStateCommitment,
    right: SecurityStateCommitment,
)
    requires
        left.digest_preimage() == right.digest_preimage(),
    ensures
        left == right,
{
    reveal(SecurityStateCommitment::digest_preimage);
    reveal(SecurityStateSnapshot::encoded);
    let a = SecurityStateSnapshot { sequence: 1, commitment: left };
    let b = SecurityStateSnapshot { sequence: 1, commitment: right };
    let head = SECURITY_STATE_DIGEST_DOMAIN@ + crate::bytes::u16_be(SECURITY_STATE_DIGEST_VERSION);
    let (p, q) = (left.digest_preimage(), right.digest_preimage());
    assert(p.subrange(head.len() as int, p.len() as int) =~= left.field_bytes());
    assert(q.subrange(head.len() as int, q.len() as int) =~= right.field_bytes());
    assert(a.encoded() =~= b.encoded());
    encoding_is_injective(a, b);
}

/// An identity may always follow itself.
pub proof fn successor_is_reflexive(identity: SecurityStateIdentity)
    ensures
        successor_error(identity, identity) is None,
{
}

/// An accepted successor stays in its namespace and lowers no epoch.
pub proof fn successor_never_rolls_back(current: SecurityStateIdentity, next: SecurityStateIdentity)
    requires
        successor_error(current, next) is None,
    ensures
        next.service_id == current.service_id,
        next.profile_id == current.profile_id,
        next.epochs.protocol_version == current.epochs.protocol_version,
        next.epochs.owner_generation >= current.epochs.owner_generation,
        next.epochs.key_epoch >= current.epochs.key_epoch,
        next.epochs.projection_epoch >= current.epochs.projection_epoch,
{
}

/// A complete rotation is always accepted: the same service, protocol version and profile,
/// a later owner, epochs that are not lower, and both bindings replaced.
pub proof fn complete_rotation_is_accepted(
    current: SecurityStateIdentity,
    next: SecurityStateIdentity,
)
    requires
        next.service_id == current.service_id,
        next.epochs.protocol_version == current.epochs.protocol_version,
        next.profile_id == current.profile_id,
        next.epochs.owner_generation > current.epochs.owner_generation,
        next.epochs.key_epoch >= current.epochs.key_epoch,
        next.epochs.projection_epoch >= current.epochs.projection_epoch,
        next.session_binding != current.session_binding,
        next.security_epoch_binding != current.security_epoch_binding,
    ensures
        successor_error(current, next) is None,
{
}

/// Nothing between no change and a complete rotation is accepted: a successor that differs
/// at all is of a later owner, and has both bindings replaced.
pub proof fn partial_rotation_is_refused(
    current: SecurityStateIdentity,
    next: SecurityStateIdentity,
)
    requires
        successor_error(current, next) is None,
        next != current,
    ensures
        next.epochs.owner_generation > current.epochs.owner_generation,
        next.session_binding != current.session_binding,
        next.security_epoch_binding != current.security_epoch_binding,
        next.service_id == current.service_id,
        next.profile_id == current.profile_id,
        next.epochs.protocol_version == current.epochs.protocol_version,
        next.epochs.key_epoch >= current.epochs.key_epoch,
        next.epochs.projection_epoch >= current.epochs.projection_epoch,
{
}

/// A refusal names a rule that the successor breaks, and none that stands before it in the
/// order of service, protocol version, profile, owner, key epoch, projection epoch and
/// rotation.
pub proof fn refused_successor_breaks_the_named_rule(
    current: SecurityStateIdentity,
    next: SecurityStateIdentity,
)
    ensures
        successor_error(current, next) matches Some(error) ==> {
            &&& error is ServiceIdentityChanged <==> next.service_id != current.service_id
            &&& error is ProtocolVersionChanged ==> next.epochs.protocol_version
                != current.epochs.protocol_version
            &&& error is ProfileIdentityChanged ==> next.profile_id != current.profile_id
                && next.epochs.protocol_version == current.epochs.protocol_version
            &&& error is OwnerGenerationRegressed ==> next.epochs.owner_generation
                < current.epochs.owner_generation && next.profile_id == current.profile_id
                && next.epochs.protocol_version == current.epochs.protocol_version
            &&& error is KeyEpochRegressed ==> next.epochs.key_epoch < current.epochs.key_epoch
                && next.epochs.owner_generation >= current.epochs.owner_generation
                && next.profile_id == current.profile_id && next.epochs.protocol_version
                == current.epochs.protocol_version
            &&& error is ProjectionEpochRegressed ==> next.epochs.projection_epoch
                < current.epochs.projection_epoch && next.epochs.key_epoch
                >= current.epochs.key_epoch && next.epochs.owner_generation
                >= current.epochs.owner_generation && next.profile_id == current.profile_id
                && next.epochs.protocol_version == current.epochs.protocol_version
            &&& error is OwnerGenerationDidNotAdvance ==> next.epochs.owner_generation
                == current.epochs.owner_generation && (next.epochs.key_epoch
                > current.epochs.key_epoch || next.epochs.projection_epoch
                > current.epochs.projection_epoch || next.session_binding
                != current.session_binding || next.security_epoch_binding
                != current.security_epoch_binding)
            &&& error is SessionBindingNotRotated ==> next.session_binding
                == current.session_binding && next.epochs.owner_generation
                > current.epochs.owner_generation
            &&& error is SecurityEpochBindingNotRotated ==> next.security_epoch_binding
                == current.security_epoch_binding && next.session_binding
                != current.session_binding && next.epochs.owner_generation
                > current.epochs.owner_generation
            &&& error is OwnerGenerationDidNotAdvance || error is SessionBindingNotRotated
                || error is SecurityEpochBindingNotRotated ==> next.profile_id
                == current.profile_id && next.epochs.protocol_version
                == current.epochs.protocol_version && next.epochs.key_epoch
                >= current.epochs.key_epoch && next.epochs.projection_epoch
                >= current.epochs.projection_epoch
        },
{
}

/// Epochs are accepted exactly where all four are above zero; otherwise the refusal names
/// the first zero one in the order of protocol version, owner, key and projection.
pub proof fn missing_epoch_is_named(
    protocol_version: u16,
    owner_generation: u64,
    key_epoch: u64,
    projection_epoch: u64,
)
    ensures
        ({
            let error = epochs_error(
                protocol_version,
                owner_generation,
                key_epoch,
                projection_epoch,
            );
            &&& error is None <==> protocol_version > 0 && owner_generation > 0 && key_epoch > 0
                && projection_epoch > 0
            &&& error == Some(SecurityStateValueError::ProtocolVersionIsZero) <==> protocol_version
                == 0
            &&& error == Some(SecurityStateValueError::OwnerGenerationIsMissing)
                <==> protocol_version > 0 && owner_generation == 0
            &&& error == Some(SecurityStateValueError::KeyEpochIsMissing) <==> protocol_version > 0
                && owner_generation > 0 && key_epoch == 0
            &&& error == Some(SecurityStateValueError::ProjectionEpochIsMissing)
                <==> protocol_version > 0 && owner_generation > 0 && key_epoch > 0
                && projection_epoch == 0
        }),
{
}

/// Bindings are accepted exactly where each has a nonzero byte; otherwise the refusal names
/// the first without one in the order of service, profile, session and security epoch.
pub proof fn empty_binding_is_named(
    service_id: Seq<u8>,
    profile_id: Seq<u8>,
    session_binding: Seq<u8>,
    security_epoch_binding: Seq<u8>,
)
    ensures
        ({
            let error = identity_error(
                service_id,
                profile_id,
                session_binding,
                security_epoch_binding,
            );
            let service = exists|i: int|
                0 <= i < service_id.len() && #[trigger] service_id[i] > 0;
            let profile = exists|i: int|
                0 <= i < profile_id.len() && #[trigger] profile_id[i] > 0;
            let session = exists|i: int|
                0 <= i < session_binding.len() && #[trigger] session_binding[i] > 0;
            let epoch = exists|i: int|
                0 <= i < security_epoch_binding.len() && #[trigger] security_epoch_binding[i] > 0;
            &&& error is None <==> service && profile && session && epoch
            &&& error == Some(SecurityStateValueError::ServiceIdIsEmpty) <==> !service
            &&& error == Some(SecurityStateValueError::ProfileIdIsEmpty) <==> service && !profile
            &&& error == Some(SecurityStateValueError::SessionBindingIsEmpty) <==> service
                && profile && !session
            &&& error == Some(SecurityStateValueError::SecurityEpochBindingIsEmpty) <==> service
                && profile && session && !epoch
        }),
{
}

/// Digests are accepted exactly where each has a nonzero byte; otherwise the refusal names
/// the serving digest before the component's.
pub proof fn empty_digest_is_named(
    serving_identity_digest: Seq<u8>,
    component_state_digest: Seq<u8>,
)
    ensures
        ({
            let error = commitment_error(serving_identity_digest, component_state_digest);
            let serving = exists|i: int|
                0 <= i < serving_identity_digest.len() && #[trigger] serving_identity_digest[i] > 0;
            let component = exists|i: int|
                0 <= i < component_state_digest.len() && #[trigger] component_state_digest[i] > 0;
            &&& error is None <==> serving && component
            &&& error == Some(SecurityStateValueError::ServingIdentityDigestIsEmpty) <==> !serving
            &&& error == Some(SecurityStateValueError::ComponentStateDigestIsEmpty) <==> serving
                && !component
        }),
{
}

/// What the witness is told of a snapshot is the snapshot's own sequence, and a digest that
/// two snapshots share where they commit to the same.
pub proof fn freshness_is_of_its_snapshot(
    left: SecurityStateSnapshot,
    right: SecurityStateSnapshot,
    told: SecurityFreshness,
    other: SecurityFreshness,
)
    requires
        left.has_freshness(told),
        right.has_freshness(other),
    ensures
        told.sequence == left.sequence,
        other.sequence == right.sequence,
        left.commitment == right.commitment ==> told.state_digest.0@ == other.state_digest.0@,
{
}

/// Bytes that are read hold the snapshot's fields at their fixed places, and are read as the
/// one snapshot whose fields they hold.
pub proof fn read_fields_stand_in_the_bytes(bytes: Seq<u8>, state: SecurityStateSnapshot)
    requires
        bytes.len() == 204,
        decodes_to(bytes, Ok(state)),
    ensures
        state.sequence == crate::bytes::be_u64(bytes.subrange(10, 18)),
        state.commitment.identity.service_id@ == bytes.subrange(18, 34),
        state.commitment.identity.epochs.protocol_version == crate::bytes::be_u16(
            bytes.subrange(34, 36),
        ),
        state.commitment.identity.epochs.owner_generation == crate::bytes::be_u64(
            bytes.subrange(36, 44),
        ),
        state.commitment.identity.epochs.key_epoch == crate::bytes::be_u64(bytes.subrange(44, 52)),
        state.commitment.identity.epochs.projection_epoch == crate::bytes::be_u64(
            bytes.subrange(52, 60),
        ),
        state.commitment.identity.profile_id@ == bytes.subrange(60, 76),
        state.commitment.identity.session_binding@ == bytes.subrange(76, 108),
        state.commitment.identity.security_epoch_binding@ == bytes.subrange(108, 140),
        state.commitment.serving_identity_digest@ == bytes.subrange(140, 172),
        state.commitment.component_state_digest@ == bytes.subrange(172, 204),
        state.sequence > 0,
        state.commitment.identity.epochs.protocol_version > 0,
        state.commitment.identity.epochs.owner_generation > 0,
        state.commitment.identity.epochs.key_epoch > 0,
        state.commitment.identity.epochs.projection_epoch > 0,
{
    lemma_encoded_layout(state);
    crate::bytes::lemma_u64_round_trip(state.sequence);
    crate::bytes::lemma_u16_round_trip(state.commitment.identity.epochs.protocol_version);
    crate::bytes::lemma_u64_round_trip(state.commitment.identity.epochs.owner_generation);
    crate::bytes::lemma_u64_round_trip(state.commitment.identity.epochs.key_epoch);
    crate::bytes::lemma_u64_round_trip(state.commitment.identity.epochs.projection_epoch);
}

/// No two different identities can follow each other.
pub proof fn successor_is_antisymmetric(left: SecurityStateIdentity, right: SecurityStateIdentity)
    requires
        successor_error(left, right) is None,
        successor_error(right, left) is None,
    ensures
        left == right,
{
}

#[derive(Debug, Clone, Copy, PartialEq, Eq, Structural)]
pub enum PersistentSecurityStateError {
    InvalidFixedLayout,
    InvalidMagic,
    UnsupportedVersion { actual: u16 },
    InvalidState(SecurityStateValueError),
}

impl PersistentSecurityStateError {
    pub open spec fn text(self) -> Seq<char> {
        match self {
            Self::InvalidFixedLayout => "security state has an invalid fixed layout"@,
            Self::InvalidMagic => "security state has invalid magic bytes"@,
            Self::UnsupportedVersion { .. } => "security state has an unsupported file version"@,
            Self::InvalidState(_) => "security state violates identity invariants"@,
        }
    }

    /// Text shown to an operator.
    pub fn message(&self) -> (text: &'static str)
        ensures
            text@ == self.text(),
    {
        match self {
            Self::InvalidFixedLayout => "security state has an invalid fixed layout",
            Self::InvalidMagic => "security state has invalid magic bytes",
            Self::UnsupportedVersion { .. } => "security state has an unsupported file version",
            Self::InvalidState(_) => "security state violates identity invariants",
        }
    }

    /// The underlying value error, if there is one.
    pub fn source(&self) -> (source: Option<SecurityStateValueError>)
        ensures
            source == match *self {
                Self::InvalidState(error) => Some(error),
                _ => None,
            },
    {
        match self {
            Self::InvalidState(error) => Some(*error),
            _ => None,
        }
    }
}

/// Bytes are refused for their magic before their version, for their version before
/// anything they hold, and otherwise for a field that is missing; the version that is named
/// is the one that they hold.
pub proof fn refused_bytes_name_their_first_fault(
    bytes: Seq<u8>,
    result: Result<SecurityStateSnapshot, PersistentSecurityStateError>,
)
    requires
        bytes.len() == 204,
        decodes_to(bytes, result),
    ensures
        result == Err::<SecurityStateSnapshot, _>(PersistentSecurityStateError::InvalidMagic)
            <==> bytes.subrange(0, 8) != SECURITY_STATE_FILE_MAGIC@,
        (result matches Err(error) && error is UnsupportedVersion) <==> bytes.subrange(0, 8)
            == SECURITY_STATE_FILE_MAGIC@ && bytes[8] * 256 + bytes[9] != 1,
        result matches Err(PersistentSecurityStateError::UnsupportedVersion { actual })
            ==> actual == bytes[8] * 256 + bytes[9],
        result is Ok <==> {
            &&& bytes.subrange(0, 8) == SECURITY_STATE_FILE_MAGIC@
            &&& bytes[8] * 256 + bytes[9] == 1
            &&& crate::bytes::be_u64(bytes.subrange(10, 18)) > 0
            &&& crate::bytes::be_u16(bytes.subrange(34, 36)) > 0
            &&& crate::bytes::be_u64(bytes.subrange(36, 44)) > 0
            &&& crate::bytes::be_u64(bytes.subrange(44, 52)) > 0
            &&& crate::bytes::be_u64(bytes.subrange(52, 60)) > 0
            &&& exists|i: int| 18 <= i < 34 && #[trigger] bytes[i] > 0
            &&& exists|i: int| 60 <= i < 76 && #[trigger] bytes[i] > 0
            &&& exists|i: int| 76 <= i < 108 && #[trigger] bytes[i] > 0
            &&& exists|i: int| 108 <= i < 140 && #[trigger] bytes[i] > 0
            &&& exists|i: int| 140 <= i < 172 && #[trigger] bytes[i] > 0
            &&& exists|i: int| 172 <= i < 204 && #[trigger] bytes[i] > 0
        },
{
    reveal(decode_error);
    crate::bytes::lemma_u16_canonical(bytes.subrange(8, 10));
    crate::bytes::lemma_u64_canonical(bytes.subrange(10, 18));
    crate::bytes::lemma_u16_canonical(bytes.subrange(34, 36));
    crate::bytes::lemma_u64_canonical(bytes.subrange(36, 44));
    crate::bytes::lemma_u64_canonical(bytes.subrange(44, 52));
    crate::bytes::lemma_u64_canonical(bytes.subrange(52, 60));
    crate::bytes::lemma_zero_range(bytes, 18, 34);
    crate::bytes::lemma_zero_range(bytes, 60, 76);
    crate::bytes::lemma_zero_range(bytes, 76, 108);
    crate::bytes::lemma_zero_range(bytes, 108, 140);
    crate::bytes::lemma_zero_range(bytes, 140, 172);
    crate::bytes::lemma_zero_range(bytes, 172, 204);
}

/// A commitment's digest is taken over the domain, the two bytes of the version and the
/// fields in the order of a state's file.
pub proof fn commitment_is_digested_in_order(state: SecurityStateSnapshot)
    ensures
        state.commitment.digest_preimage() == SECURITY_STATE_DIGEST_DOMAIN@ + seq![0u8, 1u8]
            + state.encoded().skip(18),
{
    reveal(SecurityStateCommitment::digest_preimage);
    reveal(SecurityStateSnapshot::encoded);
    assert(state.encoded().skip(18) =~= state.commitment.field_bytes());
    assert(crate::bytes::u16_be(1) =~= seq![0u8, 1u8]);
}

/// A state's file begins with its name, and its digest is taken under a domain of its own,
/// both in plain letters; the domain ends in a zero byte.
pub proof fn state_is_named_in_plain_letters()
    ensures
        SECURITY_STATE_FILE_MAGIC@.map_values(|byte: u8| byte as char) == "ZORAMSS1"@,
        SECURITY_STATE_DIGEST_DOMAIN@.drop_last().map_values(|byte: u8| byte as char)
            == "zaino-oram/security-state-commitment-digest/v1"@,
        SECURITY_STATE_DIGEST_DOMAIN@.last() == 0,
{
    reveal_strlit("ZORAMSS1");
    reveal_strlit("zaino-oram/security-state-commitment-digest/v1");
    assert(SECURITY_STATE_FILE_MAGIC@.map_values(|byte: u8| byte as char) =~= "ZORAMSS1"@);
    assert(SECURITY_STATE_DIGEST_DOMAIN@.drop_last().map_values(|byte: u8| byte as char)
        =~= "zaino-oram/security-state-commitment-digest/v1"@);
}

/// No two faults of this kind are shown by the same text: an operator can tell each from
/// every other.
pub proof fn value_faults_are_told_apart(
    left: SecurityStateValueError,
    right: SecurityStateValueError,
)
    requires
        left.text() == right.text(),
    ensures
        left is ServiceIdIsEmpty <==> right is ServiceIdIsEmpty,
        left is ProtocolVersionIsZero <==> right is ProtocolVersionIsZero,
        left is OwnerGenerationIsMissing <==> right is OwnerGenerationIsMissing,
        left is KeyEpochIsMissing <==> right is KeyEpochIsMissing,
        left is ProjectionEpochIsMissing <==> right is ProjectionEpochIsMissing,
        left is ProfileIdIsEmpty <==> right is ProfileIdIsEmpty,
        left is SessionBindingIsEmpty <==> right is SessionBindingIsEmpty,
        left is SecurityEpochBindingIsEmpty <==> right is SecurityEpochBindingIsEmpty,
        left is ServingIdentityDigestIsEmpty <==> right is ServingIdentityDigestIsEmpty,
        left is ComponentStateDigestIsEmpty <==> right is ComponentStateDigestIsEmpty,
        left is SequenceIsMissing <==> right is SequenceIsMissing,
        left is SequenceOverflow <==> right is SequenceOverflow,
{
    reveal_strlit("security state has a zero service identity");
    assert("security state has a zero service identity"@.len() == 42);
    assert("security state has a zero service identity"@[29] == 'v');
    reveal_strlit("security state has a zero protocol version");
    assert("security state has a zero protocol version"@.len() == 42);
    assert("security state has a zero protocol version"@[29] == 't');
    reveal_strlit("security state has a zero owner generation");
    assert("security state has a zero owner generation"@.len() == 42);
    assert("security state has a zero owner generation"@[29] == 'e');
    reveal_strlit("security state has a zero key epoch");
    assert("security state has a zero key epoch"@.len() == 35);
    assert("security state has a zero key epoch"@[29] == ' ');
    reveal_strlit("security state has a zero projection epoch");
    assert("security state has a zero projection epoch"@.len() == 42);
    assert("security state has a zero projection epoch"@[29] == 'j');
    reveal_strlit("security state has a zero profile identity");
    assert("security state has a zero profile identity"@.len() == 42);
    assert("security state has a zero profile identity"@[29] == 'f');
    reveal_strlit("security state has a zero session binding");
    assert("security state has a zero session binding"@.len() == 41);
    assert("security state has a zero session binding"@[29] == 's');
    reveal_strlit("security state has a zero security epoch binding");
    assert("security state has a zero security epoch binding"@.len() == 48);
    assert("security state has a zero security epoch binding"@[29] == 'u');
    reveal_strlit("security state has a zero serving identity digest");
    assert("security state has a zero serving identity digest"@.len() == 49);
    assert("security state has a zero serving identity digest"@[29] == 'v');
    reveal_strlit("security state has a zero component-state digest");
    assert("security state has a zero component-state digest"@.len() == 48);
    assert("security state has a zero component-state digest"@[29] == 'p');
    reveal_strlit("security state has a zero sequence");
    assert("security state has a zero sequence"@.len() == 34);
    assert("security state has a zero sequence"@[29] == 'u');
    reveal_strlit("security state sequence is exhausted");
    assert("security state sequence is exhausted"@.len() == 36);
    assert("security state sequence is exhausted"@[29] == 'h');
}

/// No two faults of this kind are shown by the same text: an operator can tell each from
/// every other.
pub proof fn file_faults_are_told_apart(
    left: PersistentSecurityStateError,
    right: PersistentSecurityStateError,
)
    requires
        left.text() == right.text(),
    ensures
        left is InvalidFixedLayout <==> right is InvalidFixedLayout,
        left is InvalidMagic <==> right is InvalidMagic,
        left is UnsupportedVersion <==> right is UnsupportedVersion,
        left is InvalidState <==> right is InvalidState,
{
    reveal_strlit("security state has an invalid fixed layout");
    assert("security state has an invalid fixed layout"@.len() == 42);
    reveal_strlit("security state has invalid magic bytes");
    assert("security state has invalid magic bytes"@.len() == 38);
    reveal_strlit("security state has an unsupported file version");
    assert("security state has an unsupported file version"@.len() == 46);
    reveal_strlit("security state violates identity invariants");
    assert("security state violates identity invariants"@.len() == 43);
}

} // verus!
