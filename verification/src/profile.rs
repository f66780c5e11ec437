//! Fixed parameters of one private-query profile.

use crate::security_state::PROFILE_ID_BYTES;
use vstd::prelude::*;

verus! {

/// Replay parameters compiled into a profile.
#[derive(Debug, Clone, Copy, PartialEq, Eq, Structural)]
pub struct CompiledReplayPolicy {
    /// Lifetime number of replay transactions.
    pub transaction_capacity: u64,
    /// Width of one continuation expiry bucket.
    pub expiry_bucket_width_seconds: u64,
    /// Interval between maintenance runs.
    pub garbage_collection_interval_seconds: u64,
}

impl CompiledReplayPolicy {
    pub fn transaction_capacity(&self) -> (capacity: u64)
        ensures
            capacity == self.transaction_capacity,
    {
        self.transaction_capacity
    }

    pub fn expiry_bucket_width_seconds(&self) -> (seconds: u64)
        ensures
            seconds == self.expiry_bucket_width_seconds,
    {
        self.expiry_bucket_width_seconds
    }

    pub fn garbage_collection_interval_seconds(&self) -> (seconds: u64)
        ensures
            seconds == self.garbage_collection_interval_seconds,
    {
        self.garbage_collection_interval_seconds
    }
}

/// Work that one round of a profile does, whatever it is asked.
#[derive(Debug, Clone, Copy, PartialEq, Eq, Structural)]
pub struct AccessBudget {
    pub store_reads: usize,
    pub recent_snapshot_reads: usize,
    pub envelope_bytes: usize,
}

/// Fixed parameters of one private-query profile.
#[derive(Debug, Clone, Copy, PartialEq, Eq)]
pub struct PrivacyProfile {
    pub profile_id: [u8; PROFILE_ID_BYTES],
    /// Oblivious store reads of one round.
    pub store_reads: usize,
    /// Slots of the recent snapshot, each read once in a round.
    pub recent_snapshot_slots: usize,
    /// Result slots of one response.
    pub response_slots: usize,
    /// Width of a request and of a response.
    pub envelope_bytes: usize,
    /// Lifetime of a continuation token.
    pub continuation_ttl_seconds: u64,
    /// Granularity of a round's timeout.
    pub timeout_bucket_millis: u64,
    pub replay_policy: CompiledReplayPolicy,
}

/// Two parameters of a profile do not fit together.
#[derive(Debug, Clone, Copy, PartialEq, Eq, Structural)]
pub struct ProfileMismatch;

impl PrivacyProfile {
    pub fn profile_id(&self) -> (profile_id: &[u8; PROFILE_ID_BYTES])
        ensures
            *profile_id == self.profile_id,
    {
        &self.profile_id
    }

    pub fn store_reads(&self) -> (reads: usize)
        ensures
            reads == self.store_reads,
    {
        self.store_reads
    }

    pub fn continuation_ttl_seconds(&self) -> (seconds: u64)
        ensures
            seconds == self.continuation_ttl_seconds,
    {
        self.continuation_ttl_seconds
    }

    pub fn timeout_bucket_millis(&self) -> (millis: u64)
        ensures
            millis == self.timeout_bucket_millis,
    {
        self.timeout_bucket_millis
    }

    pub fn replay_policy(&self) -> (policy: CompiledReplayPolicy)
        ensures
            policy == self.replay_policy,
    {
        self.replay_policy
    }

    /// Number of positions a query scans: store slots first, then recent slots.
    pub fn combined_scan_slots(&self) -> (result: Result<usize, ProfileMismatch>)
        ensures
            result == if self.store_reads + self.recent_snapshot_slots <= usize::MAX {
                Ok((self.store_reads + self.recent_snapshot_slots) as usize)
            } else {
                Err(ProfileMismatch)
            },
    {
        match self.store_reads.checked_add(self.recent_snapshot_slots) {
            Some(slots) => Ok(slots),
            None => Err(ProfileMismatch),
        }
    }

    /// Accepts exactly the profile's number of recent-snapshot slots.
    pub fn validate_recent_snapshot_slots(&self, slots: usize) -> (result: Result<
        (),
        ProfileMismatch,
    >)
        ensures
            result == if slots == self.recent_snapshot_slots {
                Ok(())
            } else {
                Err(ProfileMismatch)
            },
    {
        if slots != self.recent_snapshot_slots {
            return Err(ProfileMismatch);
        }
        Ok(())
    }

    pub fn access_budget(&self) -> (budget: AccessBudget)
        ensures
            budget == (AccessBudget {
                store_reads: self.store_reads,
                recent_snapshot_reads: self.recent_snapshot_slots,
                envelope_bytes: self.envelope_bytes,
            }),
    {
        AccessBudget {
            store_reads: self.store_reads,
            recent_snapshot_reads: self.recent_snapshot_slots,
            envelope_bytes: self.envelope_bytes,
        }
    }
}

/// A profile whose widths are those of the types that carry its messages.
#[derive(Debug, Clone, Copy, PartialEq, Eq)]
pub struct CompiledQueryShape<const RESPONSE_SLOTS: usize, const ENVELOPE_BYTES: usize> {
    pub profile: PrivacyProfile,
}

impl<const RESPONSE_SLOTS: usize, const ENVELOPE_BYTES: usize> CompiledQueryShape<
    RESPONSE_SLOTS,
    ENVELOPE_BYTES,
> {
    /// The profile's widths are the type's.
    pub open spec fn wf(self) -> bool {
        self.profile.response_slots == RESPONSE_SLOTS && self.profile.envelope_bytes
            == ENVELOPE_BYTES
    }

    pub fn new(profile: PrivacyProfile) -> (result: Result<Self, ProfileMismatch>)
        ensures
            match result {
                Ok(shape) => shape.wf() && shape.profile == profile,
                Err(_) => profile.response_slots != RESPONSE_SLOTS || profile.envelope_bytes
                    != ENVELOPE_BYTES,
            },
    {
        if profile.response_slots != RESPONSE_SLOTS || profile.envelope_bytes != ENVELOPE_BYTES {
            return Err(ProfileMismatch);
        }
        Ok(CompiledQueryShape { profile })
    }

    pub fn profile(&self) -> (profile: &PrivacyProfile)
        ensures
            *profile == self.profile,
    {
        &self.profile
    }
}

} // verus!
