//! Leases on a serving epoch.
//!
//! A serving epoch is one generation that a builder sealed and what was captured of the
//! chain for it. The two are put together here, once, and a runtime takes its store and its
//! snapshot from the lease and from nowhere else.

use crate::bytes::arrays_equal;
use crate::private_service::FinalizedProjection;
use crate::private_service::PublicChainCheckpoint;
use crate::providers::PinnedServingEpoch;
use crate::providers::ServingEpochObservation;
use crate::providers::ServingEpochUnavailable;
use crate::records::RecentSnapshotIdentity;
use vstd::prelude::*;

verus! {

/// What one capture of the chain gave: the epoch that was observed, the recent snapshot
/// that was frozen for it, and what observes whether it is still current.
pub struct ServingEpochCapture<C, D> {
    pub observation: ServingEpochObservation,
    pub recent_snapshot: D,
    pub currentness: C,
}

/// A lease on one serving epoch, with its store and its snapshot.
pub struct ServingEpochLease<S, C, D> {
    pinned: PinnedServingEpoch<C>,
    recent_snapshot: D,
    finalized_store: S,
}

/// The identity is of this finalized block.
pub open spec fn is_at(
    identity: RecentSnapshotIdentity,
    checkpoint: PublicChainCheckpoint,
) -> bool {
    identity.finalized_height == checkpoint.height && identity.finalized_hash_display
        == checkpoint.block_hash
}

impl<S, C, D> ServingEpochLease<S, C, D> {
    /// The pinned epoch and its observer.
    pub closed spec fn pinned(self) -> PinnedServingEpoch<C> {
        self.pinned
    }

    pub closed spec fn recent_snapshot(self) -> D {
        self.recent_snapshot
    }

    pub closed spec fn finalized_store(self) -> S {
        self.finalized_store
    }

    /// How pinning ends: a capture is pinned with the generation that was sealed at the
    /// block it is of, and with no other.
    pub open spec fn pins(
        projection: FinalizedProjection<S>,
        capture: ServingEpochCapture<C, D>,
        result: Result<Self, ServingEpochUnavailable>,
    ) -> bool {
        match result {
            Ok(lease) => {
                &&& is_at(capture.observation.identity, projection.checkpoint)
                &&& lease.pinned() == (PinnedServingEpoch {
                    pinned: capture.observation,
                    currentness: capture.currentness,
                })
                &&& lease.recent_snapshot() == capture.recent_snapshot
                &&& lease.finalized_store() == projection.store
            },
            Err(_) => !is_at(capture.observation.identity, projection.checkpoint),
        }
    }

    /// Pins a sealed generation with what was captured for it.
    pub fn pin(projection: FinalizedProjection<S>, capture: ServingEpochCapture<C, D>) -> (result:
        Result<Self, ServingEpochUnavailable>)
        ensures
            Self::pins(projection, capture, result),
    {
        let identity = capture.observation.identity;
        if identity.finalized_height != projection.checkpoint.height || !arrays_equal(
            &identity.finalized_hash_display,
            &projection.checkpoint.block_hash,
        ) {
            return Err(ServingEpochUnavailable);
        }
        Ok(
            ServingEpochLease {
                pinned: PinnedServingEpoch {
                    pinned: capture.observation,
                    currentness: capture.currentness,
                },
                recent_snapshot: capture.recent_snapshot,
                finalized_store: projection.store,
            },
        )
    }

    /// Identity of the pinned epoch.
    pub fn identity(&self) -> (identity: RecentSnapshotIdentity)
        ensures
            identity == self.pinned().pinned.identity,
    {
        self.pinned.identity()
    }

    /// Hands out the pinned epoch, its snapshot and its store.
    pub fn into_parts(self) -> (parts: (PinnedServingEpoch<C>, D, S))
        ensures
            parts == (self.pinned(), self.recent_snapshot(), self.finalized_store()),
    {
        (self.pinned, self.recent_snapshot, self.finalized_store)
    }
}

/// A capture is pinned exactly where its observation is of the height and the hash that the
/// generation was sealed at; the lease then holds that generation's store and that
/// capture's observation, snapshot and observer.
pub proof fn capture_is_pinned_with_its_own_generation<S, C, D>(
    projection: FinalizedProjection<S>,
    capture: ServingEpochCapture<C, D>,
    result: Result<ServingEpochLease<S, C, D>, ServingEpochUnavailable>,
)
    requires
        ServingEpochLease::pins(projection, capture, result),
    ensures
        result is Ok <==> capture.observation.identity.finalized_height
            == projection.checkpoint.height && capture.observation.identity.finalized_hash_display
            == projection.checkpoint.block_hash,
        result matches Ok(lease) ==> {
            &&& lease.pinned().pinned == capture.observation
            &&& lease.pinned().currentness == capture.currentness
            &&& lease.recent_snapshot() == capture.recent_snapshot
            &&& lease.finalized_store() == projection.store
        },
{
}

} // verus!
