//! Identities of security epochs and rounds, and the authorities bound to them.
//!
//! An epoch or a round is told apart from any other by the instance number
//! under which it was minted, not by the values bound to it: minting again with
//! equal values gives a different epoch or round.

use crate::bytes::arrays_equal;
use vstd::prelude::*;

verus! {

pub const REPLAY_RECORD_KEY_BYTES: usize = 32;

pub const ENVELOPE_NONCE_BYTES: usize = 24;

/// One minted security epoch.
#[derive(Clone, Copy, PartialEq, Eq)]
pub struct SecurityEpochTag {
    pub stable_binding: [u8; 32],
    pub instance: u64,
}

impl SecurityEpochTag {
    pub fn new(stable_binding: [u8; 32], instance: u64) -> (tag: Self)
        ensures
            tag == (SecurityEpochTag { stable_binding, instance }),
    {
        SecurityEpochTag { stable_binding, instance }
    }

    /// Whether both values name the same minted epoch.
    pub fn same_capture(&self, other: &Self) -> (same: bool)
        ensures
            same == (*self == *other),
    {
        self.instance == other.instance && arrays_equal(&self.stable_binding, &other.stable_binding)
    }
}

/// One minted round of one security epoch.
#[derive(Clone, Copy, PartialEq, Eq)]
pub struct SecurityRoundCapture {
    pub epoch: SecurityEpochTag,
    pub instance: u64,
}

impl SecurityRoundCapture {
    pub fn new(epoch: &SecurityEpochTag, instance: u64) -> (round: Self)
        ensures
            round == (SecurityRoundCapture { epoch: *epoch, instance }),
    {
        SecurityRoundCapture { epoch: *epoch, instance }
    }

    /// Whether both values name the same minted round.
    pub fn same_capture(&self, other: &Self) -> (same: bool)
        ensures
            same == (*self == *other),
    {
        self.instance == other.instance && self.epoch.same_capture(&other.epoch)
    }
}

/// Reservation of one round's time observation and nonces.
#[derive(Clone, Copy, PartialEq, Eq)]
pub struct RoundReservationAuthority {
    pub round: SecurityRoundCapture,
    pub now_unix_seconds: u64,
    pub response_nonce: [u8; ENVELOPE_NONCE_BYTES],
    pub token_nonce: [u8; ENVELOPE_NONCE_BYTES],
}

impl RoundReservationAuthority {
    pub fn new(
        round: &SecurityRoundCapture,
        now_unix_seconds: u64,
        response_nonce: [u8; ENVELOPE_NONCE_BYTES],
        token_nonce: [u8; ENVELOPE_NONCE_BYTES],
    ) -> (authority: Self)
        ensures
            authority == (RoundReservationAuthority {
                round: *round,
                now_unix_seconds,
                response_nonce,
                token_nonce,
            }),
    {
        RoundReservationAuthority { round: *round, now_unix_seconds, response_nonce, token_nonce }
    }

    /// The authority was reserved for exactly this round of this epoch with these values.
    pub open spec fn covers(
        self,
        active: SecurityEpochTag,
        round: SecurityRoundCapture,
        now_unix_seconds: u64,
        response_nonce: [u8; ENVELOPE_NONCE_BYTES],
        token_nonce: [u8; ENVELOPE_NONCE_BYTES],
    ) -> bool {
        &&& self.round == round
        &&& round.epoch == active
        &&& self.now_unix_seconds == now_unix_seconds
        &&& self.response_nonce == response_nonce
        &&& self.token_nonce == token_nonce
    }

    pub fn matches(
        &self,
        active: &SecurityEpochTag,
        round: &SecurityRoundCapture,
        now_unix_seconds: u64,
        response_nonce: &[u8; ENVELOPE_NONCE_BYTES],
        token_nonce: &[u8; ENVELOPE_NONCE_BYTES],
    ) -> (matching: bool)
        ensures
            matching == self.covers(
                *active,
                *round,
                now_unix_seconds,
                *response_nonce,
                *token_nonce,
            ),
    {
        self.round.same_capture(round) && round.epoch.same_capture(active) && self.now_unix_seconds
            == now_unix_seconds && arrays_equal(&self.response_nonce, response_nonce)
            && arrays_equal(&self.token_nonce, token_nonce)
    }
}

/// Proof that one round's replay transaction was committed.
#[derive(Clone, Copy, PartialEq, Eq)]
pub struct ReplayCommitAuthority {
    pub round: SecurityRoundCapture,
}

impl ReplayCommitAuthority {
    pub fn new(round: &SecurityRoundCapture) -> (authority: Self)
        ensures
            authority == (ReplayCommitAuthority { round: *round }),
    {
        ReplayCommitAuthority { round: *round }
    }

    /// The authority was minted for exactly this round of this epoch.
    pub open spec fn covers(self, active: SecurityEpochTag, round: SecurityRoundCapture) -> bool {
        self.round == round && round.epoch == active
    }

    pub fn matches(&self, active: &SecurityEpochTag, round: &SecurityRoundCapture) -> (matching:
        bool)
        ensures
            matching == self.covers(*active, *round),
    {
        self.round.same_capture(round) && round.epoch.same_capture(active)
    }
}

/// What one replay transaction found.
#[derive(Debug, Clone, Copy, PartialEq, Eq, Structural)]
pub enum ReplayDuplicateDecision {
    Fresh,
    RequestDuplicate,
    ContinuationDuplicate,
}

/// A committed replay transaction: its authority and what it found.
#[derive(Clone, Copy, PartialEq, Eq)]
pub struct ReplayCommitResult {
    pub authority: ReplayCommitAuthority,
    pub decision: ReplayDuplicateDecision,
}

impl ReplayCommitResult {
    pub fn new(authority: ReplayCommitAuthority, decision: ReplayDuplicateDecision) -> (result:
        Self)
        ensures
            result == (ReplayCommitResult { authority, decision }),
    {
        ReplayCommitResult { authority, decision }
    }
}

/// The replay transaction was not committed, or it is unknown whether it was.
#[derive(Debug, Clone, Copy, PartialEq, Eq, Structural)]
pub struct ReplayCommitUnavailable;

/// Opaque identity of one request.
#[derive(Clone, Copy, PartialEq, Eq)]
pub struct RequestReplayKey(pub [u8; REPLAY_RECORD_KEY_BYTES]);

impl RequestReplayKey {
    pub fn as_bytes(&self) -> (bytes: &[u8; REPLAY_RECORD_KEY_BYTES])
        ensures
            *bytes == self.0,
    {
        &self.0
    }
}

/// Nonzero one-based ordinal of a continuation expiry bucket.
#[derive(Clone, Copy, PartialEq, Eq)]
pub struct ExpiryBucketOrdinal {
    value: u64,
}

impl ExpiryBucketOrdinal {
    #[verifier::type_invariant]
    spec fn inv(self) -> bool {
        self.value != 0
    }

    pub closed spec fn view(self) -> u64 {
        self.value
    }

    /// Two ordinals with the same number are the same.
    pub proof fn lemma_determined_by_number(left: Self, right: Self)
        requires
            left@ == right@,
        ensures
            left == right,
    {
    }

    pub fn new(value: u64) -> (ordinal: Option<Self>)
        ensures
            match ordinal {
                Some(ordinal) => value != 0 && ordinal@ == value,
                None => value == 0,
            },
    {
        if value == 0 {
            None
        } else {
            Some(ExpiryBucketOrdinal { value })
        }
    }

    pub fn get(&self) -> (value: u64)
        ensures
            value == self@,
            value != 0,
    {
        proof {
            use_type_invariant(self);
        }
        self.value
    }
}

/// Key and expiry bucket of one continuation.
#[derive(Clone, Copy, PartialEq, Eq)]
pub struct ContinuationReplayClaim {
    pub key: [u8; REPLAY_RECORD_KEY_BYTES],
    pub expiry_bucket_ordinal: ExpiryBucketOrdinal,
}

impl ContinuationReplayClaim {
    pub fn replay_key_bytes(&self) -> (bytes: &[u8; REPLAY_RECORD_KEY_BYTES])
        ensures
            *bytes == self.key,
    {
        &self.key
    }

    pub fn expiry_bucket_ordinal(&self) -> (ordinal: ExpiryBucketOrdinal)
        ensures
            ordinal == self.expiry_bucket_ordinal,
    {
        self.expiry_bucket_ordinal
    }
}

/// What the continuation lane of a replay transaction should record.
#[derive(Clone, Copy, PartialEq, Eq)]
pub enum ContinuationReplayPlan {
    /// Nothing: the lane carries cover.
    Cover,
    /// The claim, unless it was made before: then the lane carries cover.
    ClaimOrCover(ContinuationReplayClaim),
}

/// An authority reserved for one round is refused for any other round, time or nonce.
pub proof fn reservation_covers_one_round_only(
    authority: RoundReservationAuthority,
    first: SecurityRoundCapture,
    second: SecurityRoundCapture,
    active: SecurityEpochTag,
    now_unix_seconds: u64,
    response_nonce: [u8; ENVELOPE_NONCE_BYTES],
    token_nonce: [u8; ENVELOPE_NONCE_BYTES],
)
    requires
        authority.covers(active, first, now_unix_seconds, response_nonce, token_nonce),
        authority.covers(active, second, now_unix_seconds, response_nonce, token_nonce),
    ensures
        first == second,
{
}

/// A reservation covers a round exactly where it was made for that round of the active
/// epoch, at that second and with those two nonces; a commit authority exactly where it was
/// made for that round of the active epoch.
pub proof fn authorities_cover_what_they_were_made_for(
    reservation: RoundReservationAuthority,
    commit: ReplayCommitAuthority,
    active: SecurityEpochTag,
    round: SecurityRoundCapture,
    now_unix_seconds: u64,
    response_nonce: [u8; ENVELOPE_NONCE_BYTES],
    token_nonce: [u8; ENVELOPE_NONCE_BYTES],
)
    ensures
        reservation.covers(active, round, now_unix_seconds, response_nonce, token_nonce) <==> {
            &&& reservation.round.instance == round.instance
            &&& reservation.round.epoch == round.epoch
            &&& round.epoch.instance == active.instance
            &&& round.epoch.stable_binding == active.stable_binding
            &&& reservation.now_unix_seconds == now_unix_seconds
            &&& reservation.response_nonce == response_nonce
            &&& reservation.token_nonce == token_nonce
        },
        commit.covers(active, round) <==> {
            &&& commit.round.instance == round.instance
            &&& commit.round.epoch == round.epoch
            &&& round.epoch.instance == active.instance
            &&& round.epoch.stable_binding == active.stable_binding
        },
{
}

} // verus!
