//! Values and transitions of the append-only replay journal.
//!
//! The journal records the request lane and the continuation real-or-cover
//! lane as one ordered transaction. Capacity counts total committed
//! transactions, not live claims: there is no claim deletion, count reduction,
//! compaction or capacity reclamation.

use crate::bytes::all_zero;
use crate::bytes::append;
use crate::bytes::append_u16;
use crate::bytes::append_u64;
use crate::bytes::append_zeros;
use crate::bytes::arrays_equal;
use crate::bytes::into_array;
use crate::bytes::read_array;
use crate::bytes::read_u64;
use crate::digest::blake2s256_digest;
use crate::profile::CompiledReplayPolicy;
use crate::runtime_security::ExpiryBucketOrdinal;
use crate::runtime_security::ReplayDuplicateDecision;
use crate::runtime_security::REPLAY_RECORD_KEY_BYTES;
use crate::security_state::PROFILE_ID_BYTES;
use vstd::prelude::*;

verus! {

pub const CURRENT_FORMAT_VERSION: u16 = 3;

pub const ENTRY_FORMAT_VERSION: u16 = 2;

pub const CURRENT_BODY_BYTES: usize = 128;

pub const ENTRY_BODY_BYTES: usize = 96;

pub const CURRENT_LIMIT_TRANSACTIONS_START: usize = 0;

pub const CURRENT_PROFILE_ID_START: usize = 8;

pub const CURRENT_SEQUENCE_START: usize = 24;

pub const CURRENT_REQUEST_COUNT_START: usize = 32;

pub const CURRENT_CONTINUATION_COUNT_START: usize = 40;

pub const CURRENT_CHAIN_DIGEST_START: usize = 48;

pub const CURRENT_MAINTENANCE_WATERMARK_START: usize = 80;

pub const CURRENT_RESERVED_START: usize = 88;

pub const CURRENT_RESERVED_BYTES: usize = 40;

pub const ENTRY_SEQUENCE_START: usize = 0;

pub const ENTRY_REQUEST_KEY_START: usize = 8;

pub const ENTRY_CONTINUATION_TAG_START: usize = 40;

pub const ENTRY_CONTINUATION_KEY_START: usize = 41;

pub const ENTRY_CONTINUATION_EXPIRY_BUCKET_ORDINAL_START: usize = 73;

pub const ENTRY_RESERVED_START: usize = 81;

pub const ENTRY_RESERVED_BYTES: usize = 15;

pub const CONTINUATION_COVER_TAG: u8 = 0;

pub const CONTINUATION_CLAIM_TAG: u8 = 1;

/// `zaino-oram/replay-journal/entry-payload`.
pub const ENTRY_PAYLOAD_DOMAIN: [u8; 39] = [
    0x7a, 0x61, 0x69, 0x6e, 0x6f, 0x2d, 0x6f, 0x72, 0x61, 0x6d, 0x2f, 0x72,
    0x65, 0x70, 0x6c, 0x61, 0x79, 0x2d, 0x6a, 0x6f, 0x75, 0x72, 0x6e, 0x61,
    0x6c, 0x2f, 0x65, 0x6e, 0x74, 0x72, 0x79, 0x2d, 0x70, 0x61, 0x79, 0x6c,
    0x6f, 0x61, 0x64,
];

/// `zaino-oram/replay-journal/entry-chain`.
pub const ENTRY_CHAIN_DOMAIN: [u8; 37] = [
    0x7a, 0x61, 0x69, 0x6e, 0x6f, 0x2d, 0x6f, 0x72, 0x61, 0x6d, 0x2f, 0x72,
    0x65, 0x70, 0x6c, 0x61, 0x79, 0x2d, 0x6a, 0x6f, 0x75, 0x72, 0x6e, 0x61,
    0x6c, 0x2f, 0x65, 0x6e, 0x74, 0x72, 0x79, 0x2d, 0x63, 0x68, 0x61, 0x69,
    0x6e,
];

/// `zaino-oram/replay-journal/component-state`.
pub const COMPONENT_STATE_DOMAIN: [u8; 41] = [
    0x7a, 0x61, 0x69, 0x6e, 0x6f, 0x2d, 0x6f, 0x72, 0x61, 0x6d, 0x2f, 0x72,
    0x65, 0x70, 0x6c, 0x61, 0x79, 0x2d, 0x6a, 0x6f, 0x75, 0x72, 0x6e, 0x61,
    0x6c, 0x2f, 0x63, 0x6f, 0x6d, 0x70, 0x6f, 0x6e, 0x65, 0x6e, 0x74, 0x2d,
    0x73, 0x74, 0x61, 0x74, 0x65,
];

/// What a versioned digest is taken over.
pub open spec fn versioned_preimage(domain: Seq<u8>, version: u16, content: Seq<u8>) -> Seq<u8> {
    domain + crate::bytes::u16_be(version) + content
}

/// Domain-separated digest of one byte string.
pub fn versioned_digest(domain: &[u8], version: u16, content: &[u8]) -> (digest: [u8; 32])
    ensures
        digest@ == crate::digest::blake2s256(versioned_preimage(domain@, version, content@)),
{
    let mut preimage: Vec<u8> = Vec::new();
    append(&mut preimage, domain);
    append_u16(&mut preimage, version);
    append(&mut preimage, content);
    assert(preimage@ =~= versioned_preimage(domain@, version, content@));
    blake2s256_digest(preimage.as_slice())
}

/// Lifetime capacity of a journal.
#[derive(Clone, Copy, PartialEq, Eq, Structural)]
pub struct ReplayJournalLimits {
    /// Maximum lifetime append count; consumed capacity is never reclaimed.
    pub max_transactions: u64,
}

impl ReplayJournalLimits {
    pub fn new(max_transactions: u64) -> (result: Result<Self, ReplayJournalValueError>)
        ensures
            result == if max_transactions == 0 {
                Err(ReplayJournalValueError::ZeroLimit)
            } else {
                Ok((ReplayJournalLimits { max_transactions }))
            },
    {
        if max_transactions == 0 {
            return Err(ReplayJournalValueError::ZeroLimit);
        }
        Ok(ReplayJournalLimits { max_transactions })
    }

    pub fn from_compiled_policy(policy: CompiledReplayPolicy) -> (limits: Self)
        ensures
            limits.max_transactions == policy.transaction_capacity,
    {
        ReplayJournalLimits { max_transactions: policy.transaction_capacity() }
    }

    /// Redacted rendering for logs.
    pub fn debug_text(&self) -> (text: &'static str)
        ensures
            text@ == "ReplayJournalLimits { ..REDACTED.. }"@,
    {
        "ReplayJournalLimits { ..REDACTED.. }"
    }
}

/// Recorded inclusive continuation expiry-bucket ceiling for maintenance.
///
/// Zero means that no continuation bucket is maintenance-addressable. A
/// nonzero value is classification metadata only: it is not trusted-time
/// authority and does not authorize deletion, claim-count reduction,
/// compaction, or capacity reclamation.
#[derive(Clone, Copy, PartialEq, Eq, Structural)]
pub struct ReplayMaintenanceWatermark(pub u64);

impl ReplayMaintenanceWatermark {
    pub fn new(inclusive_expiry_bucket_ordinal: u64) -> (watermark: Self)
        ensures
            watermark.0 == inclusive_expiry_bucket_ordinal,
    {
        ReplayMaintenanceWatermark(inclusive_expiry_bucket_ordinal)
    }

    pub fn inclusive_expiry_bucket_ordinal(self) -> (ordinal: u64)
        ensures
            ordinal == self.0,
    {
        self.0
    }

    /// Redacted rendering for logs.
    pub fn debug_text(&self) -> (text: &'static str)
        ensures
            text@ == "ReplayMaintenanceWatermark([REDACTED])"@,
    {
        "ReplayMaintenanceWatermark([REDACTED])"
    }
}

#[derive(Debug, Clone, Copy, PartialEq, Eq, Structural)]
pub enum ReplayJournalValueError {
    ZeroLimit,
    ProfileIdIsEmpty,
    InvalidState,
    InvalidContinuationTag,
    NonZeroReservedBytes,
    NonZeroCoverKey,
    NonZeroCoverExpiryBucketOrdinal,
    ZeroClaimExpiryBucketOrdinal,
}

impl ReplayJournalValueError {
    /// Text shown to an operator: the same for every fault.
    pub fn message(&self) -> (text: &'static str)
        ensures
            text@ == "replay journal value is invalid"@,
    {
        "replay journal value is invalid"
    }

    /// Redacted rendering for logs.
    pub fn debug_text(&self) -> (text: &'static str)
        ensures
            text@ == "ReplayJournalValueError([REDACTED])"@,
    {
        "ReplayJournalValueError([REDACTED])"
    }
}

#[derive(Debug, Clone, Copy, PartialEq, Eq, Structural)]
pub enum ReplayJournalTransitionError {
    InvalidSequence,
    InvalidDuplicateRequestLane,
    InvalidDuplicateContinuationLane,
    TransactionCapacityExceeded,
    SequenceOverflow,
    InconsistentClaimSet,
}

impl ReplayJournalTransitionError {
    /// Redacted rendering for logs.
    pub fn debug_text(&self) -> (text: &'static str)
        ensures
            text@ == "ReplayJournalTransitionError([REDACTED])"@,
    {
        "ReplayJournalTransitionError([REDACTED])"
    }
}

/// Continuation lane of one transaction.
#[derive(Clone, Copy, PartialEq, Eq)]
pub enum ReplayJournalContinuationLane {
    Cover,
    Claim { key: [u8; REPLAY_RECORD_KEY_BYTES], expiry_bucket_ordinal: ExpiryBucketOrdinal },
}

impl ReplayJournalContinuationLane {
    /// Tag, key and ordinal as every encoding writes them.
    pub open spec fn lane_bytes(self) -> Seq<u8> {
        match self {
            Self::Cover => seq![CONTINUATION_COVER_TAG] + crate::bytes::zeros(32)
                + crate::bytes::u64_be(0),
            Self::Claim { key, expiry_bucket_ordinal } => seq![CONTINUATION_CLAIM_TAG] + key@
                + crate::bytes::u64_be(expiry_bucket_ordinal@),
        }
    }

    /// A claim carries a nonzero ordinal.
    pub open spec fn wf(self) -> bool {
        self matches Self::Claim { expiry_bucket_ordinal, .. } ==> expiry_bucket_ordinal@ != 0
    }

    /// Redacted rendering for logs.
    pub fn debug_text(&self) -> (text: &'static str)
        ensures
            text@ == "ReplayJournalContinuationLane([REDACTED])"@,
    {
        "ReplayJournalContinuationLane([REDACTED])"
    }
}

/// One immutable transaction entry.
///
/// The continuation claim is an opaque digest that already binds its exact
/// token expiry plus its nonzero one-based expiry bucket ordinal. Request
/// claims carry no expiry metadata.
#[derive(Clone, Copy, PartialEq, Eq)]
pub struct ReplayJournalEntry {
    pub sequence: u64,
    pub request_key: [u8; REPLAY_RECORD_KEY_BYTES],
    pub continuation_lane: ReplayJournalContinuationLane,
}

/// Why 96 bytes are not an entry body, in the order in which reasons are reported.
#[verifier::opaque]
pub open spec fn entry_body_error(body: Seq<u8>) -> Option<ReplayJournalValueError> {
    let tag = body[40];
    let ordinal = crate::bytes::be_u64(body.subrange(73, 81));
    if !crate::bytes::is_zero(body.subrange(81, 96)) {
        Some(ReplayJournalValueError::NonZeroReservedBytes)
    } else if tag == CONTINUATION_COVER_TAG && !crate::bytes::is_zero(body.subrange(41, 73)) {
        Some(ReplayJournalValueError::NonZeroCoverKey)
    } else if tag == CONTINUATION_COVER_TAG && ordinal != 0 {
        Some(ReplayJournalValueError::NonZeroCoverExpiryBucketOrdinal)
    } else if tag == CONTINUATION_CLAIM_TAG && ordinal == 0 {
        Some(ReplayJournalValueError::ZeroClaimExpiryBucketOrdinal)
    } else if tag != CONTINUATION_COVER_TAG && tag != CONTINUATION_CLAIM_TAG {
        Some(ReplayJournalValueError::InvalidContinuationTag)
    } else if crate::bytes::be_u64(body.subrange(0, 8)) == 0 {
        Some(ReplayJournalValueError::InvalidState)
    } else {
        None
    }
}

/// What reading an entry body gives: the valid entry whose body it is, or the first fault.
pub open spec fn entry_body_decodes_to(
    body: Seq<u8>,
    result: Result<ReplayJournalEntry, ReplayJournalValueError>,
) -> bool {
    match result {
        Ok(entry) => entry_body_error(body) is None && entry.wf() && entry.body() == body,
        Err(error) => entry_body_error(body) == Some(error),
    }
}

impl ReplayJournalEntry {
    /// A committed entry has a nonzero sequence.
    pub open spec fn wf(self) -> bool {
        self.sequence != 0 && self.continuation_lane.wf()
    }

    /// The fixed-width body of the entry.
    #[verifier::opaque]
    pub open spec fn body(self) -> Seq<u8> {
        crate::bytes::u64_be(self.sequence) + self.request_key@ + self.continuation_lane.lane_bytes()
            + crate::bytes::zeros(15)
    }

    /// What the entry's payload digest is.
    pub open spec fn payload(self) -> Seq<u8> {
        crate::digest::blake2s256(
            versioned_preimage(ENTRY_PAYLOAD_DOMAIN@, ENTRY_FORMAT_VERSION, self.body()),
        )
    }

    pub fn canonical_body(&self) -> (body: [u8; ENTRY_BODY_BYTES])
        ensures
            body@ == self.body(),
    {
        let mut buffer: Vec<u8> = Vec::new();
        append_u64(&mut buffer, self.sequence);
        append(&mut buffer, self.request_key.as_slice());
        match &self.continuation_lane {
            ReplayJournalContinuationLane::Cover => {
                buffer.push(CONTINUATION_COVER_TAG);
                append_zeros(&mut buffer, 32);
                append_u64(&mut buffer, 0);
            },
            ReplayJournalContinuationLane::Claim { key, expiry_bucket_ordinal } => {
                buffer.push(CONTINUATION_CLAIM_TAG);
                append(&mut buffer, key.as_slice());
                append_u64(&mut buffer, expiry_bucket_ordinal.get());
            },
        }
        append_zeros(&mut buffer, ENTRY_RESERVED_BYTES);
        proof {
            reveal(ReplayJournalEntry::body);
            assert(buffer@ =~= self.body());
            lemma_entry_layout(*self);
        }
        into_array(&buffer)
    }

    pub fn payload_digest(&self) -> (digest: [u8; 32])
        ensures
            digest@ == self.payload(),
    {
        let body = self.canonical_body();
        versioned_digest(ENTRY_PAYLOAD_DOMAIN.as_slice(), ENTRY_FORMAT_VERSION, body.as_slice())
    }

    /// Reads one entry body.
    ///
    /// An accepted value is the one whose body these bytes are.
    pub fn from_body(body: &[u8; ENTRY_BODY_BYTES]) -> (result: Result<
        Self,
        ReplayJournalValueError,
    >)
        ensures
            entry_body_decodes_to(body@, result),
    {
        proof {
            reveal(entry_body_error);
        }
        let bytes = body.as_slice();
        let reserved: [u8; ENTRY_RESERVED_BYTES] = read_array(bytes, ENTRY_RESERVED_START);
        if !all_zero(&reserved) {
            return Err(ReplayJournalValueError::NonZeroReservedBytes);
        }
        let key: [u8; REPLAY_RECORD_KEY_BYTES] = read_array(bytes, ENTRY_CONTINUATION_KEY_START);
        let ordinal: u64 = read_u64(bytes, ENTRY_CONTINUATION_EXPIRY_BUCKET_ORDINAL_START);
        let tag: u8 = bytes[ENTRY_CONTINUATION_TAG_START];
        let continuation_lane = if tag == CONTINUATION_COVER_TAG {
            if !all_zero(&key) {
                return Err(ReplayJournalValueError::NonZeroCoverKey);
            }
            if ordinal != 0 {
                return Err(ReplayJournalValueError::NonZeroCoverExpiryBucketOrdinal);
            }
            ReplayJournalContinuationLane::Cover
        } else if tag == CONTINUATION_CLAIM_TAG {
            match ExpiryBucketOrdinal::new(ordinal) {
                Some(expiry_bucket_ordinal) => ReplayJournalContinuationLane::Claim {
                    key,
                    expiry_bucket_ordinal,
                },
                None => {
                    return Err(ReplayJournalValueError::ZeroClaimExpiryBucketOrdinal);
                },
            }
        } else {
            return Err(ReplayJournalValueError::InvalidContinuationTag);
        };
        let entry = ReplayJournalEntry {
            sequence: read_u64(bytes, ENTRY_SEQUENCE_START),
            request_key: read_array(bytes, ENTRY_REQUEST_KEY_START),
            continuation_lane,
        };
        if entry.sequence == 0 {
            return Err(ReplayJournalValueError::InvalidState);
        }
        proof {
            lemma_entry_fields_determine_body(entry, body@);
        }
        Ok(entry)
    }

    /// Redacted rendering for logs.
    pub fn debug_text(&self) -> (text: &'static str)
        ensures
            text@ == "ReplayJournalEntry { ..REDACTED.. }"@,
    {
        "ReplayJournalEntry { ..REDACTED.. }"
    }
}

/// The entry's fields lie at their fixed offsets.
pub proof fn lemma_entry_layout(entry: ReplayJournalEntry)
    ensures
        entry.body().len() == ENTRY_BODY_BYTES,
        entry.body().subrange(0, 8) == crate::bytes::u64_be(entry.sequence),
        entry.body().subrange(8, 40) == entry.request_key@,
        entry.body().subrange(81, 96) == crate::bytes::zeros(15),
        match entry.continuation_lane {
            ReplayJournalContinuationLane::Cover => entry.body()[40] == CONTINUATION_COVER_TAG
                && entry.body().subrange(41, 73) == crate::bytes::zeros(32)
                && entry.body().subrange(73, 81) == crate::bytes::u64_be(0),
            ReplayJournalContinuationLane::Claim { key, expiry_bucket_ordinal } =>
                entry.body()[40] == CONTINUATION_CLAIM_TAG && entry.body().subrange(41, 73) == key@
                    && entry.body().subrange(73, 81) == crate::bytes::u64_be(expiry_bucket_ordinal@),
        },
{
    reveal(ReplayJournalEntry::body);
    let body = entry.body();
    assert(body.subrange(0, 8) =~= crate::bytes::u64_be(entry.sequence));
    assert(body.subrange(8, 40) =~= entry.request_key@);
    assert(body.subrange(81, 96) =~= crate::bytes::zeros(15));
    match entry.continuation_lane {
        ReplayJournalContinuationLane::Cover => {
            assert(body.subrange(41, 73) =~= crate::bytes::zeros(32));
            assert(body.subrange(73, 81) =~= crate::bytes::u64_be(0));
        },
        ReplayJournalContinuationLane::Claim { key, expiry_bucket_ordinal } => {
            assert(body.subrange(41, 73) =~= key@);
            assert(body.subrange(73, 81) =~= crate::bytes::u64_be(expiry_bucket_ordinal@));
        },
    }
}

/// Bytes that hold an entry's fields at their offsets are its body.
proof fn lemma_entry_fields_determine_body(entry: ReplayJournalEntry, body: Seq<u8>)
    requires
        body.len() == ENTRY_BODY_BYTES,
        crate::bytes::be_u64(body.subrange(0, 8)) == entry.sequence,
        body.subrange(8, 40) == entry.request_key@,
        crate::bytes::is_zero(body.subrange(81, 96)),
        match entry.continuation_lane {
            ReplayJournalContinuationLane::Cover => body[40] == CONTINUATION_COVER_TAG
                && crate::bytes::is_zero(body.subrange(41, 73)) && crate::bytes::be_u64(
                body.subrange(73, 81),
            ) == 0,
            ReplayJournalContinuationLane::Claim { key, expiry_bucket_ordinal } => body[40]
                == CONTINUATION_CLAIM_TAG && body.subrange(41, 73) == key@ && crate::bytes::be_u64(
                body.subrange(73, 81),
            ) == expiry_bucket_ordinal@,
        },
    ensures
        entry.body() == body,
{
    lemma_entry_layout(entry);
    crate::bytes::lemma_u64_canonical(body.subrange(0, 8));
    crate::bytes::lemma_u64_canonical(body.subrange(73, 81));
    let own = entry.body();
    assert(body.subrange(81, 96) =~= crate::bytes::zeros(15));
    assert(body.subrange(40, 41) =~= own.subrange(40, 41));
    if entry.continuation_lane is Cover {
        assert(body.subrange(41, 73) =~= crate::bytes::zeros(32));
    }
    crate::bytes::lemma_agreement_extends(own, body, 8, 40);
    crate::bytes::lemma_agreement_extends(own, body, 40, 41);
    crate::bytes::lemma_agreement_extends(own, body, 41, 73);
    crate::bytes::lemma_agreement_extends(own, body, 73, 81);
    crate::bytes::lemma_agreement_extends(own, body, 81, 96);
    assert(own.subrange(0, 96) =~= own);
    assert(body.subrange(0, 96) =~= body);
}

/// Two valid entries with the same body are the same entry.
pub proof fn entry_body_is_injective(left: ReplayJournalEntry, right: ReplayJournalEntry)
    requires
        left.body() == right.body(),
    ensures
        left == right,
{
    lemma_entry_layout(left);
    lemma_entry_layout(right);
    crate::bytes::lemma_u64_round_trip(left.sequence);
    crate::bytes::lemma_u64_round_trip(right.sequence);
    crate::bytes::lemma_array_extensional(left.request_key, right.request_key);
    match (left.continuation_lane, right.continuation_lane) {
        (
            ReplayJournalContinuationLane::Claim { key: a, expiry_bucket_ordinal: m },
            ReplayJournalContinuationLane::Claim { key: b, expiry_bucket_ordinal: n },
        ) => {
            crate::bytes::lemma_array_extensional(a, b);
            crate::bytes::lemma_u64_round_trip(m@);
            crate::bytes::lemma_u64_round_trip(n@);
            ExpiryBucketOrdinal::lemma_determined_by_number(m, n);
        },
        _ => {},
    }
}

/// Reading back the body of a valid entry gives that entry.
pub proof fn entry_body_reads_back(
    entry: ReplayJournalEntry,
    result: Result<ReplayJournalEntry, ReplayJournalValueError>,
)
    requires
        entry.wf(),
        entry_body_decodes_to(entry.body(), result),
    ensures
        result == Ok::<ReplayJournalEntry, ReplayJournalValueError>(entry),
{
    lemma_entry_layout(entry);
    crate::bytes::lemma_u64_round_trip(entry.sequence);
    crate::bytes::lemma_u64_round_trip(0);
    if let ReplayJournalContinuationLane::Claim { expiry_bucket_ordinal, .. }
        = entry.continuation_lane {
        crate::bytes::lemma_u64_round_trip(expiry_bucket_ordinal@);
    }
    assert(entry_body_error(entry.body()) is None) by {
        reveal(entry_body_error);
    }
    if let Ok(read) = result {
        entry_body_is_injective(read, entry);
    }
}

/// Opaque committed state of the local replay component.
#[derive(Clone, Copy, PartialEq, Eq)]
pub struct ReplayJournalComponentStateDigest(pub [u8; 32]);

impl ReplayJournalComponentStateDigest {
    pub fn as_bytes(&self) -> (bytes: &[u8; 32])
        ensures
            *bytes == self.0,
    {
        &self.0
    }

    pub fn same(&self, other: &Self) -> (same: bool)
        ensures
            same == (*self == *other),
    {
        arrays_equal(&self.0, &other.0)
    }

    /// Redacted rendering for logs.
    pub fn debug_text(&self) -> (text: &'static str)
        ensures
            text@ == "ReplayJournalComponentStateDigest([REDACTED])"@,
    {
        "ReplayJournalComponentStateDigest([REDACTED])"
    }
}

/// Set of claimed keys.
///
/// The keys are held in the order in which they were claimed, and no key is
/// held twice.
pub struct ClaimSet {
    keys: Vec<[u8; REPLAY_RECORD_KEY_BYTES]>,
}

impl ClaimSet {
    /// No key is held twice.
    pub closed spec fn wf(self) -> bool {
        self.keys@.no_duplicates()
    }

    /// The claimed keys.
    pub closed spec fn view(self) -> Set<[u8; REPLAY_RECORD_KEY_BYTES]> {
        self.keys@.to_set()
    }

    pub fn new() -> (set: Self)
        ensures
            set.wf(),
            set@ == Set::<[u8; REPLAY_RECORD_KEY_BYTES]>::empty(),
    {
        let set = ClaimSet { keys: Vec::new() };
        assert(set@ =~= Set::empty());
        set
    }

    /// Whether a key was claimed.
    pub fn contains(&self, key: &[u8; REPLAY_RECORD_KEY_BYTES]) -> (claimed: bool)
        ensures
            claimed == self@.contains(*key),
    {
        let mut index: usize = 0;
        while index < self.keys.len()
            invariant
                index <= self.keys@.len(),
                forall|j: int| 0 <= j < index ==> self.keys@[j] != *key,
            decreases self.keys@.len() - index,
        {
            if arrays_equal(&self.keys[index], key) {
                assert(self.keys@.contains(*key));
                return true;
            }
            index = index + 1;
        }
        assert(!self.keys@.contains(*key));
        false
    }

    /// Claims a key, and says whether it was not claimed before.
    pub fn insert(&mut self, key: [u8; REPLAY_RECORD_KEY_BYTES]) -> (fresh: bool)
        requires
            old(self).wf(),
        ensures
            final(self).wf(),
            final(self)@ == old(self)@.insert(key),
            fresh == !old(self)@.contains(key),
    {
        if self.contains(&key) {
            assert(self@ =~= old(self)@.insert(key));
            return false;
        }
        let ghost before = self.keys@;
        self.keys.push(key);
        proof {
            assert(!before.contains(key));
            assert(self.keys@ =~= before.push(key));
            assert forall|k: [u8; REPLAY_RECORD_KEY_BYTES]|
                self@.contains(k) == old(self)@.insert(key).contains(k) by {
                if before.contains(k) {
                    let i = choose|i: int| 0 <= i < before.len() && before[i] == k;
                    assert(self.keys@[i] == k);
                }
                if k == key {
                    assert(self.keys@[before.len() as int] == k);
                }
                if self.keys@.contains(k) {
                    let i = choose|i: int| 0 <= i < self.keys@.len() && self.keys@[i] == k;
                    if i < before.len() {
                        assert(before[i] == k);
                    }
                }
            }
            assert(self@ =~= old(self)@.insert(key));
        }
        true
    }

    /// Number of claimed keys.
    pub fn len(&self) -> (count: usize)
        requires
            self.wf(),
        ensures
            count == self@.len(),
            self@.finite(),
    {
        proof {
            self.keys@.unique_seq_to_set();
            vstd::seq_lib::seq_to_set_is_finite(self.keys@);
        }
        self.keys.len()
    }

    /// Whether no key was claimed.
    pub fn is_empty(&self) -> (empty: bool)
        requires
            self.wf(),
        ensures
            empty == (self@ == Set::<[u8; REPLAY_RECORD_KEY_BYTES]>::empty()),
    {
        let empty = self.keys.len() == 0;
        proof {
            if empty {
                assert(self@ =~= Set::empty());
            } else {
                assert(self@.contains(self.keys@[0]));
            }
        }
        empty
    }
}

/// Mathematical content of a replay head.
#[verifier::ext_equal]
pub struct ReplayJournalHead {
    pub max_transactions: u64,
    pub profile_id: Seq<u8>,
    pub committed_sequence: u64,
    pub claimed_request_count: u64,
    pub claimed_continuation_count: u64,
    pub entry_chain: Seq<u8>,
    pub watermark: u64,
}

/// Set of claimed keys, as contracts speak of it.
pub type Claims = Set<[u8; 32]>;

/// Head of a journal without transactions.
pub open spec fn empty_head(max_transactions: u64, profile_id: Seq<u8>) -> ReplayJournalHead {
    ReplayJournalHead {
        max_transactions,
        profile_id,
        committed_sequence: 0,
        claimed_request_count: 0,
        claimed_continuation_count: 0,
        entry_chain: crate::bytes::zeros(32),
        watermark: 0,
    }
}

/// Why a head is not one that a journal can have.
pub open spec fn head_error(head: ReplayJournalHead) -> Option<ReplayJournalValueError> {
    if crate::bytes::is_zero(head.profile_id) {
        Some(ReplayJournalValueError::ProfileIdIsEmpty)
    } else if head.claimed_continuation_count <= head.claimed_request_count
        <= head.committed_sequence <= head.max_transactions && (head.committed_sequence == 0
        ==> crate::bytes::is_zero(head.entry_chain)) {
        None
    } else {
        Some(ReplayJournalValueError::InvalidState)
    }
}

/// A transaction or a watermark was recorded.
pub open spec fn head_is_persisted(head: ReplayJournalHead) -> bool {
    head.committed_sequence != 0 || head.watermark != 0
}

/// The fixed-width body of a head.
#[verifier::opaque]
pub open spec fn head_body(head: ReplayJournalHead) -> Seq<u8> {
    crate::bytes::u64_be(head.max_transactions) + head.profile_id + crate::bytes::u64_be(
        head.committed_sequence,
    ) + crate::bytes::u64_be(head.claimed_request_count) + crate::bytes::u64_be(
        head.claimed_continuation_count,
    ) + head.entry_chain + crate::bytes::u64_be(head.watermark) + crate::bytes::zeros(40)
}

/// Opaque digest of a head.
pub open spec fn head_digest(head: ReplayJournalHead) -> Seq<u8> {
    crate::digest::blake2s256(
        versioned_preimage(COMPONENT_STATE_DOMAIN@, CURRENT_FORMAT_VERSION, head_body(head)),
    )
}

/// Why an entry may not follow a head, in the order in which reasons are reported.
pub open spec fn entry_error(
    head: ReplayJournalHead,
    requests: Claims,
    continuations: Claims,
    entry: ReplayJournalEntry,
) -> Option<ReplayJournalTransitionError> {
    let fresh = !requests.contains(entry.request_key);
    if head.committed_sequence == u64::MAX {
        Some(ReplayJournalTransitionError::SequenceOverflow)
    } else if entry.sequence != head.committed_sequence + 1 {
        Some(ReplayJournalTransitionError::InvalidSequence)
    } else if entry.sequence > head.max_transactions {
        Some(ReplayJournalTransitionError::TransactionCapacityExceeded)
    } else if !fresh && entry.continuation_lane is Claim {
        Some(ReplayJournalTransitionError::InvalidDuplicateRequestLane)
    } else if fresh && entry.continuation_lane is Claim && continuations.contains(
        entry.continuation_lane->key,
    ) {
        Some(ReplayJournalTransitionError::InvalidDuplicateContinuationLane)
    } else if fresh && head.claimed_request_count == u64::MAX {
        Some(ReplayJournalTransitionError::InconsistentClaimSet)
    } else if entry.continuation_lane is Claim && head.claimed_continuation_count == u64::MAX {
        Some(ReplayJournalTransitionError::InconsistentClaimSet)
    } else {
        None
    }
}

/// Chain digest after one more entry.
pub open spec fn chained(entry_chain: Seq<u8>, payload: Seq<u8>) -> Seq<u8> {
    crate::digest::blake2s256(
        versioned_preimage(ENTRY_CHAIN_DOMAIN@, ENTRY_FORMAT_VERSION, entry_chain + payload),
    )
}

/// Head after an accepted entry.
pub open spec fn head_after(
    head: ReplayJournalHead,
    requests: Claims,
    entry: ReplayJournalEntry,
) -> ReplayJournalHead {
    ReplayJournalHead {
        committed_sequence: entry.sequence,
        claimed_request_count: (head.claimed_request_count + if requests.contains(
            entry.request_key,
        ) {
            0int
        } else {
            1
        }) as u64,
        claimed_continuation_count: (head.claimed_continuation_count
            + if entry.continuation_lane is Claim {
            1int
        } else {
            0
        }) as u64,
        entry_chain: chained(head.entry_chain, entry.payload()),
        ..head
    }
}

/// Request claims after an accepted entry.
pub open spec fn requests_after(requests: Claims, entry: ReplayJournalEntry) -> Claims {
    requests.insert(entry.request_key)
}

/// Continuation claims after an accepted entry.
pub open spec fn continuations_after(continuations: Claims, entry: ReplayJournalEntry) -> Claims {
    match entry.continuation_lane {
        ReplayJournalContinuationLane::Cover => continuations,
        ReplayJournalContinuationLane::Claim { key, .. } => continuations.insert(key),
    }
}

/// Claims that a prepared transaction will make.
#[derive(Clone, Copy, PartialEq, Eq)]
pub struct ReplayJournalDelta {
    pub insert_request: Option<[u8; REPLAY_RECORD_KEY_BYTES]>,
    pub insert_continuation: Option<[u8; REPLAY_RECORD_KEY_BYTES]>,
}

/// Claims that an accepted entry makes.
pub open spec fn delta_of(requests: Claims, entry: ReplayJournalEntry) -> ReplayJournalDelta {
    ReplayJournalDelta {
        insert_request: if requests.contains(entry.request_key) {
            None
        } else {
            Some(entry.request_key)
        },
        insert_continuation: match entry.continuation_lane {
            ReplayJournalContinuationLane::Cover => None,
            ReplayJournalContinuationLane::Claim { key, .. } => Some(key),
        },
    }
}

/// What an accepted entry says of its request.
pub open spec fn entry_decision(
    requests: Claims,
    entry: ReplayJournalEntry,
) -> ReplayDuplicateDecision {
    if requests.contains(entry.request_key) {
        ReplayDuplicateDecision::RequestDuplicate
    } else {
        ReplayDuplicateDecision::Fresh
    }
}

/// Monotonic replay head reconstructed from every committed entry plus the
/// independently persisted maintenance watermark.
///
/// Both claim counts only increase. This state has no deletion base, live-count
/// distinction, or authority to retire claims or capacity.
#[derive(Clone, Copy, PartialEq, Eq)]
pub struct ReplayJournalState {
    pub limits: ReplayJournalLimits,
    pub profile_id: [u8; PROFILE_ID_BYTES],
    pub committed_sequence: u64,
    pub claimed_request_count: u64,
    pub claimed_continuation_count: u64,
    pub entry_chain_digest: [u8; 32],
    pub maintenance_expiry_bucket_watermark: ReplayMaintenanceWatermark,
}

/// Why 128 bytes are not a persisted head, in the order in which reasons are reported.
pub open spec fn head_body_error(body: Seq<u8>) -> Option<ReplayJournalValueError> {
    let head = head_at(body);
    if !crate::bytes::is_zero(body.subrange(88, 128)) {
        Some(ReplayJournalValueError::NonZeroReservedBytes)
    } else if head.max_transactions == 0 {
        Some(ReplayJournalValueError::ZeroLimit)
    } else if head_error(head) is Some {
        head_error(head)
    } else if !head_is_persisted(head) {
        Some(ReplayJournalValueError::InvalidState)
    } else {
        None
    }
}

/// The fields that lie in a head's body.
#[verifier::opaque]
pub open spec fn head_at(body: Seq<u8>) -> ReplayJournalHead {
    ReplayJournalHead {
        max_transactions: crate::bytes::be_u64(body.subrange(0, 8)) as u64,
        profile_id: body.subrange(8, 24),
        committed_sequence: crate::bytes::be_u64(body.subrange(24, 32)) as u64,
        claimed_request_count: crate::bytes::be_u64(body.subrange(32, 40)) as u64,
        claimed_continuation_count: crate::bytes::be_u64(body.subrange(40, 48)) as u64,
        entry_chain: body.subrange(48, 80),
        watermark: crate::bytes::be_u64(body.subrange(80, 88)) as u64,
    }
}

/// What reading a head's body gives: the valid head whose body it is, or the first fault.
pub open spec fn head_body_decodes_to(
    body: Seq<u8>,
    result: Result<ReplayJournalState, ReplayJournalValueError>,
) -> bool {
    match result {
        Ok(state) => head_body_error(body) is None && state@ == head_at(body) && head_body(state@)
            == body,
        Err(error) => head_body_error(body) == Some(error),
    }
}

impl ReplayJournalState {
    pub open spec fn view(self) -> ReplayJournalHead {
        ReplayJournalHead {
            max_transactions: self.limits.max_transactions,
            profile_id: self.profile_id@,
            committed_sequence: self.committed_sequence,
            claimed_request_count: self.claimed_request_count,
            claimed_continuation_count: self.claimed_continuation_count,
            entry_chain: self.entry_chain_digest@,
            watermark: self.maintenance_expiry_bucket_watermark.0,
        }
    }

    pub fn empty(limits: ReplayJournalLimits, profile_id: [u8; PROFILE_ID_BYTES]) -> (state: Self)
        ensures
            state@ == empty_head(limits.max_transactions, profile_id@),
    {
        let state = ReplayJournalState {
            limits,
            profile_id,
            committed_sequence: 0,
            claimed_request_count: 0,
            claimed_continuation_count: 0,
            entry_chain_digest: [0u8; 32],
            maintenance_expiry_bucket_watermark: ReplayMaintenanceWatermark(0),
        };
        assert(state.entry_chain_digest@ =~= crate::bytes::zeros(32));
        state
    }

    pub fn validate(&self) -> (result: Result<(), ReplayJournalValueError>)
        ensures
            result == match head_error(self@) {
                Some(error) => Err(error),
                None => Ok(()),
            },
    {
        if all_zero(&self.profile_id) {
            return Err(ReplayJournalValueError::ProfileIdIsEmpty);
        }
        if self.committed_sequence > self.limits.max_transactions || self.claimed_request_count
            > self.committed_sequence || self.claimed_continuation_count
            > self.claimed_request_count {
            return Err(ReplayJournalValueError::InvalidState);
        }
        if self.committed_sequence == 0 && (self.claimed_request_count != 0
            || self.claimed_continuation_count != 0 || !all_zero(&self.entry_chain_digest)) {
            return Err(ReplayJournalValueError::InvalidState);
        }
        Ok(())
    }

    pub fn canonical_current_body(&self) -> (body: [u8; CURRENT_BODY_BYTES])
        ensures
            body@ == head_body(self@),
    {
        let mut buffer: Vec<u8> = Vec::new();
        append_u64(&mut buffer, self.limits.max_transactions);
        append(&mut buffer, self.profile_id.as_slice());
        append_u64(&mut buffer, self.committed_sequence);
        append_u64(&mut buffer, self.claimed_request_count);
        append_u64(&mut buffer, self.claimed_continuation_count);
        append(&mut buffer, self.entry_chain_digest.as_slice());
        append_u64(
            &mut buffer,
            self.maintenance_expiry_bucket_watermark.inclusive_expiry_bucket_ordinal(),
        );
        append_zeros(&mut buffer, CURRENT_RESERVED_BYTES);
        proof {
            reveal(head_body);
            assert(buffer@ =~= head_body(self@));
        }
        into_array(&buffer)
    }

    /// Reads one persisted head.
    ///
    /// An accepted value is the one whose body these bytes are.
    pub fn from_body(body: &[u8; CURRENT_BODY_BYTES]) -> (result: Result<
        Self,
        ReplayJournalValueError,
    >)
        ensures
            head_body_decodes_to(body@, result),
    {
        proof {
            reveal(head_at);
        }
        let bytes = body.as_slice();
        let reserved: [u8; CURRENT_RESERVED_BYTES] = read_array(bytes, CURRENT_RESERVED_START);
        if !all_zero(&reserved) {
            return Err(ReplayJournalValueError::NonZeroReservedBytes);
        }
        let limits = match ReplayJournalLimits::new(
            read_u64(bytes, CURRENT_LIMIT_TRANSACTIONS_START),
        ) {
            Ok(limits) => limits,
            Err(error) => {
                return Err(error);
            },
        };
        let state = ReplayJournalState {
            limits,
            profile_id: read_array(bytes, CURRENT_PROFILE_ID_START),
            committed_sequence: read_u64(bytes, CURRENT_SEQUENCE_START),
            claimed_request_count: read_u64(bytes, CURRENT_REQUEST_COUNT_START),
            claimed_continuation_count: read_u64(bytes, CURRENT_CONTINUATION_COUNT_START),
            entry_chain_digest: read_array(bytes, CURRENT_CHAIN_DIGEST_START),
            maintenance_expiry_bucket_watermark: ReplayMaintenanceWatermark::new(
                read_u64(bytes, CURRENT_MAINTENANCE_WATERMARK_START),
            ),
        };
        assert(state@ =~= head_at(body@));
        match state.validate() {
            Ok(()) => {},
            Err(error) => {
                return Err(error);
            },
        }
        if !state.has_persisted_transition() {
            return Err(ReplayJournalValueError::InvalidState);
        }
        proof {
            lemma_head_fields_determine_body(body@);
        }
        Ok(state)
    }

    /// Decides one entry against the head and both claim sets, and computes what it leads to.
    pub fn preview_entry(
        &self,
        request_claims: &ClaimSet,
        continuation_claims: &ClaimSet,
        entry: &ReplayJournalEntry,
    ) -> (result: Result<
        (Self, ReplayJournalDelta, ReplayDuplicateDecision),
        ReplayJournalTransitionError,
    >)
        ensures
            match result {
                Ok((next, delta, decision)) => {
                    &&& entry_error(self@, request_claims@, continuation_claims@, *entry) is None
                    &&& next@ == head_after(self@, request_claims@, *entry)
                    &&& next.limits == self.limits
                    &&& next.profile_id == self.profile_id
                    &&& delta == delta_of(request_claims@, *entry)
                    &&& decision == entry_decision(request_claims@, *entry)
                },
                Err(error) => entry_error(self@, request_claims@, continuation_claims@, *entry)
                    == Some(error),
            },
    {
        let expected_sequence: u64 = match self.committed_sequence.checked_add(1) {
            Some(sequence) => sequence,
            None => {
                return Err(ReplayJournalTransitionError::SequenceOverflow);
            },
        };
        if entry.sequence != expected_sequence {
            return Err(ReplayJournalTransitionError::InvalidSequence);
        }
        if entry.sequence > self.limits.max_transactions {
            return Err(ReplayJournalTransitionError::TransactionCapacityExceeded);
        }
        let request_is_fresh = !request_claims.contains(&entry.request_key);
        let insert_continuation: Option<[u8; REPLAY_RECORD_KEY_BYTES]> =
            match &entry.continuation_lane {
            ReplayJournalContinuationLane::Cover => None,
            ReplayJournalContinuationLane::Claim { key, .. } => {
                if !request_is_fresh {
                    return Err(ReplayJournalTransitionError::InvalidDuplicateRequestLane);
                }
                if continuation_claims.contains(key) {
                    return Err(ReplayJournalTransitionError::InvalidDuplicateContinuationLane);
                }
                Some(*key)
            },
        };
        let decision = if request_is_fresh {
            ReplayDuplicateDecision::Fresh
        } else {
            ReplayDuplicateDecision::RequestDuplicate
        };
        let new_requests: u64 = if request_is_fresh {
            1
        } else {
            0
        };
        let claimed_request_count: u64 = match self.claimed_request_count.checked_add(
            new_requests,
        ) {
            Some(count) => count,
            None => {
                return Err(ReplayJournalTransitionError::InconsistentClaimSet);
            },
        };
        let new_continuations: u64 = if insert_continuation.is_some() {
            1
        } else {
            0
        };
        let claimed_continuation_count: u64 = match self.claimed_continuation_count.checked_add(
            new_continuations,
        ) {
            Some(count) => count,
            None => {
                return Err(ReplayJournalTransitionError::InconsistentClaimSet);
            },
        };
        let payload_digest = entry.payload_digest();
        let mut chain_content: Vec<u8> = Vec::new();
        append(&mut chain_content, self.entry_chain_digest.as_slice());
        append(&mut chain_content, payload_digest.as_slice());
        assert(chain_content@ =~= self@.entry_chain + entry.payload());
        let entry_chain_digest = versioned_digest(
            ENTRY_CHAIN_DOMAIN.as_slice(),
            ENTRY_FORMAT_VERSION,
            chain_content.as_slice(),
        );
        let next = ReplayJournalState {
            limits: self.limits,
            profile_id: self.profile_id,
            committed_sequence: entry.sequence,
            claimed_request_count,
            claimed_continuation_count,
            entry_chain_digest,
            maintenance_expiry_bucket_watermark: self.maintenance_expiry_bucket_watermark,
        };
        let insert_request: Option<[u8; REPLAY_RECORD_KEY_BYTES]> = if request_is_fresh {
            Some(entry.request_key)
        } else {
            None
        };
        assert(next@ =~= head_after(self@, request_claims@, *entry));
        Ok((next, ReplayJournalDelta { insert_request, insert_continuation }, decision))
    }

    /// Applies one entry to the head and both claim sets.
    ///
    /// A refused entry changes neither claim set.
    pub fn apply_entry(
        &self,
        request_claims: &mut ClaimSet,
        continuation_claims: &mut ClaimSet,
        entry: &ReplayJournalEntry,
    ) -> (result: Result<(Self, ReplayDuplicateDecision), ReplayJournalTransitionError>)
        requires
            old(request_claims).wf(),
            old(continuation_claims).wf(),
        ensures
            final(request_claims).wf(),
            final(continuation_claims).wf(),
            match result {
                Ok((next, decision)) => {
                    &&& entry_error(
                        self@,
                        old(request_claims)@,
                        old(continuation_claims)@,
                        *entry,
                    ) is None
                    &&& next@ == head_after(self@, old(request_claims)@, *entry)
                    &&& next.limits == self.limits
                    &&& next.profile_id == self.profile_id
                    &&& decision == entry_decision(old(request_claims)@, *entry)
                    &&& final(request_claims)@ == requests_after(old(request_claims)@, *entry)
                    &&& final(continuation_claims)@ == continuations_after(
                        old(continuation_claims)@,
                        *entry,
                    )
                },
                Err(error) => entry_error(
                    self@,
                    old(request_claims)@,
                    old(continuation_claims)@,
                    *entry,
                ) == Some(error) && *final(request_claims) == *old(request_claims)
                    && *final(continuation_claims) == *old(continuation_claims),
            },
    {
        let (next, delta, decision) = match self.preview_entry(
            request_claims,
            continuation_claims,
            entry,
        ) {
            Ok(preview) => preview,
            Err(error) => {
                return Err(error);
            },
        };
        match delta.insert_request {
            Some(key) => {
                request_claims.insert(key);
            },
            None => {
                assert(request_claims@ =~= requests_after(request_claims@, *entry));
            },
        }
        match delta.insert_continuation {
            Some(key) => {
                continuation_claims.insert(key);
            },
            None => {},
        }
        Ok((next, decision))
    }

    pub fn component_state_digest(&self) -> (digest: ReplayJournalComponentStateDigest)
        ensures
            digest.0@ == head_digest(self@),
    {
        let body = self.canonical_current_body();
        ReplayJournalComponentStateDigest(
            versioned_digest(
                COMPONENT_STATE_DOMAIN.as_slice(),
                CURRENT_FORMAT_VERSION,
                body.as_slice(),
            ),
        )
    }

    /// Decides one proposed watermark: refused if lower, nothing to do if equal.
    pub fn preview_maintenance_watermark(&self, proposed: ReplayMaintenanceWatermark) -> (result:
        Result<Option<Self>, MaintenanceWatermarkRegressed>)
        ensures
            result == if proposed.0 < self.maintenance_expiry_bucket_watermark.0 {
                Err(MaintenanceWatermarkRegressed)
            } else if proposed == self.maintenance_expiry_bucket_watermark {
                Ok(None)
            } else {
                Ok(
                    Some(
                        (ReplayJournalState {
                            maintenance_expiry_bucket_watermark: proposed,
                            ..*self
                        }),
                    ),
                )
            },
    {
        if proposed.0 < self.maintenance_expiry_bucket_watermark.0 {
            return Err(MaintenanceWatermarkRegressed);
        }
        if proposed.0 == self.maintenance_expiry_bucket_watermark.0 {
            return Ok(None);
        }
        let mut next = *self;
        next.maintenance_expiry_bucket_watermark = proposed;
        Ok(Some(next))
    }

    pub fn has_persisted_transition(&self) -> (persisted: bool)
        ensures
            persisted == head_is_persisted(self@),
    {
        self.committed_sequence != 0 || self.maintenance_expiry_bucket_watermark.0 != 0
    }

    /// Whether two heads agree in every field.
    pub fn same(&self, other: &Self) -> (same: bool)
        ensures
            same == (*self == *other),
            same == (self@ == other@),
    {
        let same = self.limits == other.limits && arrays_equal(&self.profile_id, &other.profile_id)
            && self.committed_sequence == other.committed_sequence && self.claimed_request_count
            == other.claimed_request_count && self.claimed_continuation_count
            == other.claimed_continuation_count && arrays_equal(
            &self.entry_chain_digest,
            &other.entry_chain_digest,
        ) && self.maintenance_expiry_bucket_watermark == other.maintenance_expiry_bucket_watermark;
        proof {
            if self@ == other@ {
                crate::bytes::lemma_array_extensional(self.profile_id, other.profile_id);
                crate::bytes::lemma_array_extensional(
                    self.entry_chain_digest,
                    other.entry_chain_digest,
                );
            }
        }
        same
    }

    /// Redacted rendering for logs.
    pub fn debug_text(&self) -> (text: &'static str)
        ensures
            text@ == "ReplayJournalState { ..REDACTED.. }"@,
    {
        "ReplayJournalState { ..REDACTED.. }"
    }
}

/// A proposed maintenance watermark is lower than the recorded one.
#[derive(Debug, Clone, Copy, PartialEq, Eq, Structural)]
pub struct MaintenanceWatermarkRegressed;

/// The head's fields lie at their fixed offsets.
pub proof fn lemma_head_layout(head: ReplayJournalHead)
    requires
        head.profile_id.len() == 16,
        head.entry_chain.len() == 32,
    ensures
        head_body(head).len() == CURRENT_BODY_BYTES,
        head_body(head).subrange(0, 8) == crate::bytes::u64_be(head.max_transactions),
        head_body(head).subrange(8, 24) == head.profile_id,
        head_body(head).subrange(24, 32) == crate::bytes::u64_be(head.committed_sequence),
        head_body(head).subrange(32, 40) == crate::bytes::u64_be(head.claimed_request_count),
        head_body(head).subrange(40, 48) == crate::bytes::u64_be(head.claimed_continuation_count),
        head_body(head).subrange(48, 80) == head.entry_chain,
        head_body(head).subrange(80, 88) == crate::bytes::u64_be(head.watermark),
        head_body(head).subrange(88, 128) == crate::bytes::zeros(40),
{
    reveal(head_body);
    let body = head_body(head);
    assert(body.subrange(0, 8) =~= crate::bytes::u64_be(head.max_transactions));
    assert(body.subrange(8, 24) =~= head.profile_id);
    assert(body.subrange(24, 32) =~= crate::bytes::u64_be(head.committed_sequence));
    assert(body.subrange(32, 40) =~= crate::bytes::u64_be(head.claimed_request_count));
    assert(body.subrange(40, 48) =~= crate::bytes::u64_be(head.claimed_continuation_count));
    assert(body.subrange(48, 80) =~= head.entry_chain);
    assert(body.subrange(80, 88) =~= crate::bytes::u64_be(head.watermark));
    assert(body.subrange(88, 128) =~= crate::bytes::zeros(40));
}

/// The body of a head holds that head.
pub proof fn lemma_head_at_body(head: ReplayJournalHead)
    requires
        head.profile_id.len() == 16,
        head.entry_chain.len() == 32,
    ensures
        head_at(head_body(head)) == head,
{
    reveal(head_at);
    lemma_head_layout(head);
    crate::bytes::lemma_u64_round_trip(head.max_transactions);
    crate::bytes::lemma_u64_round_trip(head.committed_sequence);
    crate::bytes::lemma_u64_round_trip(head.claimed_request_count);
    crate::bytes::lemma_u64_round_trip(head.claimed_continuation_count);
    crate::bytes::lemma_u64_round_trip(head.watermark);
    assert(head_at(head_body(head)) =~= head);
}

/// Bytes with zero reserved space are the body of the head that lies in them.
proof fn lemma_head_fields_determine_body(body: Seq<u8>)
    requires
        body.len() == CURRENT_BODY_BYTES,
        crate::bytes::is_zero(body.subrange(88, 128)),
    ensures
        head_body(head_at(body)) == body,
{
    reveal(head_at);
    let head = head_at(body);
    lemma_head_layout(head);
    crate::bytes::lemma_u64_canonical(body.subrange(0, 8));
    crate::bytes::lemma_u64_canonical(body.subrange(24, 32));
    crate::bytes::lemma_u64_canonical(body.subrange(32, 40));
    crate::bytes::lemma_u64_canonical(body.subrange(40, 48));
    crate::bytes::lemma_u64_canonical(body.subrange(80, 88));
    assert(body.subrange(88, 128) =~= crate::bytes::zeros(40));
    let own = head_body(head);
    crate::bytes::lemma_agreement_extends(own, body, 8, 24);
    crate::bytes::lemma_agreement_extends(own, body, 24, 32);
    crate::bytes::lemma_agreement_extends(own, body, 32, 40);
    crate::bytes::lemma_agreement_extends(own, body, 40, 48);
    crate::bytes::lemma_agreement_extends(own, body, 48, 80);
    crate::bytes::lemma_agreement_extends(own, body, 80, 88);
    crate::bytes::lemma_agreement_extends(own, body, 88, 128);
    assert(own.subrange(0, 128) =~= own);
    assert(body.subrange(0, 128) =~= body);
}

/// Two heads with the same body are the same head.
pub proof fn head_body_is_injective(left: ReplayJournalState, right: ReplayJournalState)
    requires
        head_body(left@) == head_body(right@),
    ensures
        left == right,
{
    lemma_head_at_body(left@);
    lemma_head_at_body(right@);
    crate::bytes::lemma_array_extensional(left.profile_id, right.profile_id);
    crate::bytes::lemma_array_extensional(left.entry_chain_digest, right.entry_chain_digest);
}

/// Reading back the body of a valid persisted head gives that head.
pub proof fn head_body_reads_back(
    state: ReplayJournalState,
    result: Result<ReplayJournalState, ReplayJournalValueError>,
)
    requires
        state.limits.max_transactions != 0,
        head_error(state@) is None,
        head_is_persisted(state@),
        head_body_decodes_to(head_body(state@), result),
    ensures
        result == Ok::<ReplayJournalState, ReplayJournalValueError>(state),
{
    lemma_head_layout(state@);
    lemma_head_at_body(state@);
    if let Ok(read) = result {
        head_body_is_injective(read, state);
    }
}

/// Every part of an entry enters the string that its payload digest is taken over.
pub proof fn payload_digest_binds_every_field(left: ReplayJournalEntry, right: ReplayJournalEntry)
    requires
        versioned_preimage(ENTRY_PAYLOAD_DOMAIN@, ENTRY_FORMAT_VERSION, left.body())
            == versioned_preimage(ENTRY_PAYLOAD_DOMAIN@, ENTRY_FORMAT_VERSION, right.body()),
    ensures
        left == right,
{
    lemma_preimage_binds_content(
        ENTRY_PAYLOAD_DOMAIN@,
        ENTRY_FORMAT_VERSION,
        left.body(),
        right.body(),
    );
    entry_body_is_injective(left, right);
}

/// Every part of a head enters the string that its component digest is taken over.
pub proof fn component_digest_binds_every_field(left: ReplayJournalState, right: ReplayJournalState)
    requires
        versioned_preimage(COMPONENT_STATE_DOMAIN@, CURRENT_FORMAT_VERSION, head_body(left@))
            == versioned_preimage(COMPONENT_STATE_DOMAIN@, CURRENT_FORMAT_VERSION, head_body(right@)),
    ensures
        left == right,
{
    lemma_preimage_binds_content(
        COMPONENT_STATE_DOMAIN@,
        CURRENT_FORMAT_VERSION,
        head_body(left@),
        head_body(right@),
    );
    head_body_is_injective(left, right);
}

/// The previous chain digest and the payload digest both enter the string that
/// the next chain digest is taken over, in that order.
pub proof fn chain_digest_binds_order(
    left_chain: Seq<u8>,
    left_payload: Seq<u8>,
    right_chain: Seq<u8>,
    right_payload: Seq<u8>,
)
    requires
        left_chain.len() == 32,
        right_chain.len() == 32,
        versioned_preimage(ENTRY_CHAIN_DOMAIN@, ENTRY_FORMAT_VERSION, left_chain + left_payload)
            == versioned_preimage(
            ENTRY_CHAIN_DOMAIN@,
            ENTRY_FORMAT_VERSION,
            right_chain + right_payload,
        ),
    ensures
        left_chain == right_chain,
        left_payload == right_payload,
{
    let (left, right) = (left_chain + left_payload, right_chain + right_payload);
    lemma_preimage_binds_content(ENTRY_CHAIN_DOMAIN@, ENTRY_FORMAT_VERSION, left, right);
    assert(left.subrange(0, 32) =~= left_chain);
    assert(right.subrange(0, 32) =~= right_chain);
    assert(left.subrange(32, left.len() as int) =~= left_payload);
    assert(right.subrange(32, right.len() as int) =~= right_payload);
}

/// Under one domain and version, the string determines the content.
pub proof fn lemma_preimage_binds_content(
    domain: Seq<u8>,
    version: u16,
    left: Seq<u8>,
    right: Seq<u8>,
)
    requires
        versioned_preimage(domain, version, left) == versioned_preimage(domain, version, right),
    ensures
        left == right,
{
    let (p, q) = (
        versioned_preimage(domain, version, left),
        versioned_preimage(domain, version, right),
    );
    let start = (domain + crate::bytes::u16_be(version)).len() as int;
    assert(p.subrange(start, p.len() as int) =~= left);
    assert(q.subrange(start, q.len() as int) =~= right);
}

/// An entry is accepted exactly where it is the next one, within the limit, claims nothing
/// for a request that was committed before and no continuation twice, and both counts have
/// room. A refusal for its sequence comes before one for the limit, and both before one for
/// its lane.
pub proof fn accepted_entry_is_the_next_one(
    head: ReplayJournalHead,
    requests: Claims,
    continuations: Claims,
    entry: ReplayJournalEntry,
)
    ensures
        ({
            let error = entry_error(head, requests, continuations, entry);
            let again = requests.contains(entry.request_key);
            let claim = entry.continuation_lane is Claim;
            let spent = claim && continuations.contains(entry.continuation_lane->key);
            let next = head.committed_sequence < u64::MAX && entry.sequence
                == head.committed_sequence + 1;
            &&& error is None <==> next && entry.sequence <= head.max_transactions && !(again
                && claim) && !spent && (again || head.claimed_request_count < u64::MAX) && (!claim
                || head.claimed_continuation_count < u64::MAX)
            &&& error == Some(ReplayJournalTransitionError::SequenceOverflow)
                <==> head.committed_sequence == u64::MAX
            &&& error == Some(ReplayJournalTransitionError::InvalidSequence)
                <==> head.committed_sequence < u64::MAX && !next
            &&& error == Some(ReplayJournalTransitionError::TransactionCapacityExceeded) <==> next
                && entry.sequence > head.max_transactions
            &&& error == Some(ReplayJournalTransitionError::InvalidDuplicateRequestLane) <==> next
                && entry.sequence <= head.max_transactions && again && claim
            &&& error == Some(ReplayJournalTransitionError::InvalidDuplicateContinuationLane)
                <==> next && entry.sequence <= head.max_transactions && !again && spent
        }),
{
}

/// After an entry exactly its request is claimed beside those before, and its continuation
/// where it claims one; each count rises by what was claimed newly, and nothing else of the
/// head but the sequence and the chain changes.
pub proof fn entry_claims_what_it_names(
    head: ReplayJournalHead,
    requests: Claims,
    continuations: Claims,
    entry: ReplayJournalEntry,
    key: [u8; REPLAY_RECORD_KEY_BYTES],
)
    requires
        entry_error(head, requests, continuations, entry) is None,
    ensures
        requests_after(requests, entry).contains(key) <==> requests.contains(key) || key
            == entry.request_key,
        continuations_after(continuations, entry).contains(key) <==> continuations.contains(key)
            || entry.continuation_lane is Claim && key == entry.continuation_lane->key,
        head_after(head, requests, entry).committed_sequence == head.committed_sequence + 1,
        requests.contains(entry.request_key) ==> head_after(
            head,
            requests,
            entry,
        ).claimed_request_count == head.claimed_request_count,
        !requests.contains(entry.request_key) ==> head_after(
            head,
            requests,
            entry,
        ).claimed_request_count == head.claimed_request_count + 1,
        entry.continuation_lane is Claim ==> head_after(
            head,
            requests,
            entry,
        ).claimed_continuation_count == head.claimed_continuation_count + 1,
        entry.continuation_lane is Cover ==> head_after(
            head,
            requests,
            entry,
        ).claimed_continuation_count == head.claimed_continuation_count,
        head_after(head, requests, entry).max_transactions == head.max_transactions,
        head_after(head, requests, entry).profile_id == head.profile_id,
        head_after(head, requests, entry).watermark == head.watermark,
        head_after(head, requests, entry).entry_chain == crate::digest::blake2s256(
            ENTRY_CHAIN_DOMAIN@ + seq![0u8, 2u8] + (head.entry_chain + crate::digest::blake2s256(
                ENTRY_PAYLOAD_DOMAIN@ + seq![0u8, 2u8] + entry.body(),
            )),
        ),
{
    assert(crate::bytes::u16_be(2) =~= seq![0u8, 2u8]);
}

/// What an entry adds to the claims is its request where that is new, and its continuation
/// where it claims one; and it says that the request is a duplicate exactly where it is.
pub proof fn delta_is_what_the_claims_gain(requests: Claims, continuations: Claims, entry: ReplayJournalEntry)
    ensures
        delta_of(requests, entry).insert_request is None <==> requests.contains(entry.request_key),
        delta_of(requests, entry).insert_request matches Some(key) ==> requests_after(
            requests,
            entry,
        ) == requests.insert(key) && key == entry.request_key,
        delta_of(requests, entry).insert_request is None ==> requests_after(requests, entry)
            == requests,
        delta_of(requests, entry).insert_continuation is Some <==> entry.continuation_lane is Claim,
        delta_of(requests, entry).insert_continuation matches Some(key) ==> continuations_after(
            continuations,
            entry,
        ) == continuations.insert(key) && key == entry.continuation_lane->key,
        delta_of(requests, entry).insert_continuation is None ==> continuations_after(
            continuations,
            entry,
        ) == continuations,
        entry_decision(requests, entry) is RequestDuplicate <==> requests.contains(
            entry.request_key,
        ),
        entry_decision(requests, entry) is Fresh <==> !requests.contains(entry.request_key),
{
    if requests.contains(entry.request_key) {
        assert(requests.insert(entry.request_key) =~= requests);
    }
}

/// A head is accepted exactly where its profile has a nonzero byte, no more continuations
/// are claimed than requests, no more requests than transactions made and no more of these
/// than the limit, and a journal without a transaction has an empty chain. It is kept on
/// disk once it has a transaction or a watermark.
pub proof fn accepted_head_is_in_order(head: ReplayJournalHead)
    ensures
        head_error(head) is None <==> {
            &&& exists|i: int| 0 <= i < head.profile_id.len() && #[trigger] head.profile_id[i] > 0
            &&& head.claimed_continuation_count <= head.claimed_request_count
            &&& head.claimed_request_count <= head.committed_sequence
            &&& head.committed_sequence <= head.max_transactions
            &&& head.committed_sequence > 0 || forall|i: int|
                0 <= i < head.entry_chain.len() ==> #[trigger] head.entry_chain[i] == 0
        },
        head_error(head) == Some(ReplayJournalValueError::ProfileIdIsEmpty) <==> forall|i: int|
            0 <= i < head.profile_id.len() ==> #[trigger] head.profile_id[i] == 0,
        head_is_persisted(head) <==> head.committed_sequence > 0 || head.watermark > 0,
{
}

/// A journal begins without a transaction, a claim or a watermark, under its own limit and
/// profile.
pub proof fn empty_journal_holds_nothing(max_transactions: u64, profile_id: Seq<u8>)
    ensures
        empty_head(max_transactions, profile_id).max_transactions == max_transactions,
        empty_head(max_transactions, profile_id).profile_id == profile_id,
        empty_head(max_transactions, profile_id).committed_sequence == 0,
        empty_head(max_transactions, profile_id).claimed_request_count == 0,
        empty_head(max_transactions, profile_id).claimed_continuation_count == 0,
        empty_head(max_transactions, profile_id).watermark == 0,
        empty_head(max_transactions, profile_id).entry_chain.len() == 32,
        forall|i: int|
            0 <= i < 32 ==> #[trigger] empty_head(max_transactions, profile_id).entry_chain[i] == 0,
        !head_is_persisted(empty_head(max_transactions, profile_id)),
{
}

/// A preimage is its domain, the two bytes of its version and its content, in this order.
pub proof fn preimage_names_domain_and_version(domain: Seq<u8>, version: u16, content: Seq<u8>)
    ensures
        ({
            let preimage = versioned_preimage(domain, version, content);
            let length = domain.len() as int;
            &&& preimage.len() == length + 2 + content.len()
            &&& preimage.take(length) == domain
            &&& preimage[length] * 256 + preimage[length + 1] == version
            &&& preimage.skip(length + 2) == content
        }),
{
    let preimage = versioned_preimage(domain, version, content);
    let length = domain.len() as int;
    assert(preimage.take(length) =~= domain);
    assert(preimage.skip(length + 2) =~= content);
}

/// The digest of a head is taken over the head's own bytes under the domain of component
/// states and the version of heads.
pub proof fn head_digest_is_of_its_bytes(head: ReplayJournalHead)
    ensures
        head_digest(head) == crate::digest::blake2s256(
            COMPONENT_STATE_DOMAIN@ + seq![0u8, 3u8] + head_body(head),
        ),
{
    assert(crate::bytes::u16_be(3) =~= seq![0u8, 3u8]);
}

/// Bytes that are read as an entry hold its fields at their places, with the lane's tag in
/// front of its key and ordinal; a refusal names the first of the faults in the order of
/// reserved bytes, lane and sequence.
pub proof fn read_entry_stands_in_its_bytes(
    body: Seq<u8>,
    result: Result<ReplayJournalEntry, ReplayJournalValueError>,
)
    requires
        body.len() == ENTRY_BODY_BYTES,
        entry_body_decodes_to(body, result),
    ensures
        result matches Ok(entry) ==> {
            &&& entry.sequence == crate::bytes::be_u64(body.subrange(0, 8))
            &&& entry.sequence > 0
            &&& entry.request_key@ == body.subrange(8, 40)
            &&& entry.continuation_lane is Cover <==> body[40] == 0
            &&& entry.continuation_lane is Claim <==> body[40] == 1
            &&& entry.continuation_lane is Claim ==> entry.continuation_lane->key@ == body.subrange(
                41,
                73,
            ) && entry.continuation_lane->expiry_bucket_ordinal@ == crate::bytes::be_u64(
                body.subrange(73, 81),
            )
        },
        result is Err <==> {
            ||| exists|i: int| 81 <= i < 96 && #[trigger] body[i] > 0
            ||| body[40] > 1
            ||| body[40] == 0 && exists|i: int| 41 <= i < 81 && #[trigger] body[i] > 0
            ||| body[40] == 1 && forall|i: int| 73 <= i < 81 ==> #[trigger] body[i] == 0
            ||| forall|i: int| 0 <= i < 8 ==> #[trigger] body[i] == 0
        },
        result == Err::<ReplayJournalEntry, _>(ReplayJournalValueError::NonZeroReservedBytes)
            <==> exists|i: int| 81 <= i < 96 && #[trigger] body[i] > 0,
        result == Err::<ReplayJournalEntry, _>(ReplayJournalValueError::NonZeroCoverKey) <==> (
        forall|i: int| 81 <= i < 96 ==> #[trigger] body[i] == 0) && body[40] == 0 && exists|i: int|
            41 <= i < 73 && #[trigger] body[i] > 0,
        result == Err::<ReplayJournalEntry, _>(ReplayJournalValueError::InvalidContinuationTag)
            <==> (forall|i: int| 81 <= i < 96 ==> #[trigger] body[i] == 0) && body[40] > 1,
        result == Err::<ReplayJournalEntry, _>(ReplayJournalValueError::ZeroClaimExpiryBucketOrdinal)
            <==> (forall|i: int| 81 <= i < 96 ==> #[trigger] body[i] == 0) && body[40] == 1 && (
        forall|i: int| 73 <= i < 81 ==> #[trigger] body[i] == 0),
{
    reveal(entry_body_error);
    lemma_number_is_zero(body, 0);
    lemma_number_is_zero(body, 73);
    crate::bytes::lemma_zero_range(body, 81, 96);
    crate::bytes::lemma_zero_range(body, 41, 73);
    if body[40] == 0 {
        assert((exists|i: int| 41 <= i < 81 && #[trigger] body[i] > 0) <==> (exists|i: int|
            41 <= i < 73 && #[trigger] body[i] > 0) || (exists|i: int|
            73 <= i < 81 && #[trigger] body[i] > 0));
    }
    if let Ok(entry) = result {
        lemma_entry_layout(entry);
        crate::bytes::lemma_u64_round_trip(entry.sequence);
        if let ReplayJournalContinuationLane::Claim { expiry_bucket_ordinal, .. } =
            entry.continuation_lane {
            crate::bytes::lemma_u64_round_trip(expiry_bucket_ordinal@);
        }
    }
}

proof fn lemma_number_is_zero(body: Seq<u8>, from: int)
    requires
        0 <= from,
        from + 8 <= body.len(),
    ensures
        crate::bytes::be_u64(body.subrange(from, from + 8)) == 0 <==> forall|i: int|
            from <= i < from + 8 ==> #[trigger] body[i] == 0,
{
    let part = body.subrange(from, from + 8);
    assert(forall|i: int| 0 <= i < 8 ==> #[trigger] part[i] == body[from + i]);
    if crate::bytes::be_u64(part) == 0 {
        assert forall|i: int| from <= i < from + 8 implies #[trigger] body[i] == 0 by {
            assert(part[i - from] == 0);
        }
    }
}

/// Bytes that are read as a head hold its fields at their places; they are refused exactly
/// where a reserved byte is set, there is no limit, the head is out of order, or it would
/// not be kept on disk, and a reserved byte is named before the limit.
pub proof fn read_head_stands_in_its_bytes(
    body: Seq<u8>,
    result: Result<ReplayJournalState, ReplayJournalValueError>,
)
    requires
        body.len() == CURRENT_BODY_BYTES,
        head_body_decodes_to(body, result),
    ensures
        result matches Ok(state) ==> {
            &&& state.limits.max_transactions == crate::bytes::be_u64(body.subrange(0, 8))
            &&& state.profile_id@ == body.subrange(8, 24)
            &&& state.committed_sequence == crate::bytes::be_u64(body.subrange(24, 32))
            &&& state.claimed_request_count == crate::bytes::be_u64(body.subrange(32, 40))
            &&& state.claimed_continuation_count == crate::bytes::be_u64(body.subrange(40, 48))
            &&& state.entry_chain_digest@ == body.subrange(48, 80)
            &&& state.maintenance_expiry_bucket_watermark.0 == crate::bytes::be_u64(
                body.subrange(80, 88),
            )
            &&& state.limits.max_transactions > 0
            &&& state.claimed_continuation_count <= state.claimed_request_count
            &&& state.claimed_request_count <= state.committed_sequence
            &&& state.committed_sequence <= state.limits.max_transactions
            &&& state.committed_sequence > 0 || state.maintenance_expiry_bucket_watermark.0 > 0
        },
        result == Err::<ReplayJournalState, _>(ReplayJournalValueError::NonZeroReservedBytes)
            <==> exists|i: int| 88 <= i < 128 && #[trigger] body[i] > 0,
        result == Err::<ReplayJournalState, _>(ReplayJournalValueError::ZeroLimit) <==> (forall|
            i: int,
        |
            88 <= i < 128 ==> #[trigger] body[i] == 0) && forall|i: int|
            0 <= i < 8 ==> #[trigger] body[i] == 0,
{
    reveal(head_at);
    crate::bytes::lemma_zero_range(body, 88, 128);
    lemma_number_is_zero(body, 0);
    crate::bytes::lemma_u64_canonical(body.subrange(0, 8));
    crate::bytes::lemma_u64_canonical(body.subrange(24, 32));
    crate::bytes::lemma_u64_canonical(body.subrange(32, 40));
    crate::bytes::lemma_u64_canonical(body.subrange(40, 48));
    crate::bytes::lemma_u64_canonical(body.subrange(80, 88));
}

/// The domains of the journal's digests, in plain letters.
pub proof fn journal_domains_are_in_plain_letters()
    ensures
        ENTRY_PAYLOAD_DOMAIN@.map_values(|byte: u8| byte as char)
            == "zaino-oram/replay-journal/entry-payload"@,
        ENTRY_CHAIN_DOMAIN@.map_values(|byte: u8| byte as char)
            == "zaino-oram/replay-journal/entry-chain"@,
        COMPONENT_STATE_DOMAIN@.map_values(|byte: u8| byte as char)
            == "zaino-oram/replay-journal/component-state"@,
{
    reveal_strlit("zaino-oram/replay-journal/entry-payload");
    assert(ENTRY_PAYLOAD_DOMAIN@.map_values(|byte: u8| byte as char)
        =~= "zaino-oram/replay-journal/entry-payload"@);
    reveal_strlit("zaino-oram/replay-journal/entry-chain");
    assert(ENTRY_CHAIN_DOMAIN@.map_values(|byte: u8| byte as char)
        =~= "zaino-oram/replay-journal/entry-chain"@);
    reveal_strlit("zaino-oram/replay-journal/component-state");
    assert(COMPONENT_STATE_DOMAIN@.map_values(|byte: u8| byte as char)
        =~= "zaino-oram/replay-journal/component-state"@);
}

} // verus!
