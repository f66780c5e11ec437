//! What a query runtime asks of the providers around it.
//!
//! Each method comes with the relation that its replies have to its arguments
//! and to the provider's state. A provider may relate everything to everything:
//! what the runtime does holds for every reply.

use crate::continuation::ContinuationInspection;
use crate::profile::CompiledQueryShape;
use crate::profile::PrivacyProfile;
use crate::protection::ProtectionUnavailable;
use crate::records::PrivateQueryCheckpoint;
use crate::records::RecentSnapshotIdentity;
use crate::records::UtxoQuery;
use crate::round::ContinuationExpectation;
use crate::round::ContinuationProtectionContext;
use crate::round::ContinuationState;
use crate::round::ContinuationToken;
use crate::round::DecodedRequest;
use crate::round::EngineExecution;
use crate::round::InnerCodecError;
use crate::round::PrivateQueryResponse;
use crate::round::SnapshotScan;
use crate::runtime_security::ENVELOPE_NONCE_BYTES;
use crate::security_owner::ReplayNamespace;
use crate::security_owner::ReplayNamespaceSeed;
use vstd::prelude::*;

verus! {

/// Codec of one session's requests and responses, for one compiled shape.
///
/// It is opened for a shape and a session binding, and everything that it protects,
/// digests or lets a token authenticate is of that shape and that session. What seals and
/// opens the envelopes is a protector of its own, which holds the keys.
pub trait PrivateQueryCodec<
    E,
    const RESPONSE_SLOTS: usize,
    const ENVELOPE_BYTES: usize,
>: Sized {
    /// The codecs that a shape and a session may give.
    open spec fn may_open(
        shape: CompiledQueryShape<RESPONSE_SLOTS, ENVELOPE_BYTES>,
        session_binding: [u8; 32],
        reply: Result<Self, InnerCodecError>,
    ) -> bool {
        true
    }

    /// The replies that a decode may give, and the state it may leave the protector in.
    open spec fn may_decode(
        self,
        before: E,
        envelope: [u8; ENVELOPE_BYTES],
        after: E,
        reply: Result<DecodedRequest, InnerCodecError>,
    ) -> bool {
        true
    }

    /// The replies that an encode may give, and the state it may leave the protector in.
    open spec fn may_encode(
        self,
        before: E,
        response: PrivateQueryResponse,
        nonce: [u8; ENVELOPE_NONCE_BYTES],
        after: E,
        reply: Result<[u8; ENVELOPE_BYTES], InnerCodecError>,
    ) -> bool {
        true
    }

    /// The digests of a query that is bound to a snapshot.
    open spec fn digests_to(
        self,
        query: UtxoQuery,
        snapshot_binding_digest: [u8; 32],
        digest: [u8; 32],
    ) -> bool {
        true
    }

    /// The replies to a request for what a token of a checkpoint authenticates.
    open spec fn may_give_context(
        self,
        checkpoint: PrivateQueryCheckpoint,
        reply: Result<ContinuationProtectionContext, InnerCodecError>,
    ) -> bool {
        true
    }

    /// Opens the codec of one session.
    fn open(
        shape: &CompiledQueryShape<RESPONSE_SLOTS, ENVELOPE_BYTES>,
        session_binding: [u8; 32],
    ) -> (reply: Result<Self, InnerCodecError>)
        ensures
            Self::may_open(*shape, session_binding, reply),
    ;

    fn decode_request_with_nonce(
        &self,
        envelope: &[u8; ENVELOPE_BYTES],
        protector: &mut E,
    ) -> (reply: Result<DecodedRequest, InnerCodecError>)
        ensures
            self.may_decode(*old(protector), *envelope, *final(protector), reply),
    ;

    fn encode_response(
        &self,
        response: &PrivateQueryResponse,
        nonce: [u8; ENVELOPE_NONCE_BYTES],
        protector: &mut E,
    ) -> (reply: Result<[u8; ENVELOPE_BYTES], InnerCodecError>)
        ensures
            self.may_encode(*old(protector), *response, nonce, *final(protector), reply),
    ;

    /// Digest of a query, bound to the snapshot it is asked of.
    fn bound_query_digest(&self, query: &UtxoQuery, snapshot_binding_digest: [u8; 32]) -> (digest:
        [u8; 32])
        ensures
            self.digests_to(*query, snapshot_binding_digest, digest),
    ;

    /// What the protection of a token for this checkpoint authenticates.
    fn continuation_protection_context(&self, checkpoint: &PrivateQueryCheckpoint) -> (reply:
        Result<ContinuationProtectionContext, InnerCodecError>)
        ensures
            self.may_give_context(*checkpoint, reply),
    ;
}

/// Protected continuation tokens.
pub trait ContinuationTokenProtector: Sized {
    /// The namespaces that a seed may give.
    open spec fn may_derive_namespace(
        seed: ReplayNamespaceSeed,
        namespace: ReplayNamespace,
    ) -> bool {
        true
    }

    /// The replies that an inspection may give, and the state it may leave.
    open spec fn may_inspect(
        before: Self,
        token: Option<ContinuationToken>,
        context: ContinuationProtectionContext,
        expectation: ContinuationExpectation,
        namespace: ReplayNamespace,
        request_nonce: [u8; ENVELOPE_NONCE_BYTES],
        after: Self,
        reply: ContinuationInspection,
    ) -> bool {
        true
    }

    /// The replies that an issue may give, and the state it may leave.
    open spec fn may_issue(
        before: Self,
        state: ContinuationState,
        context: ContinuationProtectionContext,
        after: Self,
        reply: Result<ContinuationToken, ProtectionUnavailable>,
    ) -> bool {
        true
    }

    /// Derives the name under which the claims of one lease are made.
    fn derive_replay_namespace(seed: &ReplayNamespaceSeed) -> (namespace: ReplayNamespace)
        ensures
            Self::may_derive_namespace(*seed, namespace),
    ;

    /// Opens and judges a presented token; the same work is done without one.
    fn inspect_optional(
        &mut self,
        token: &Option<ContinuationToken>,
        context: &ContinuationProtectionContext,
        expectation: &ContinuationExpectation,
        namespace: &ReplayNamespace,
        request_nonce: [u8; ENVELOPE_NONCE_BYTES],
    ) -> (reply: ContinuationInspection)
        ensures
            Self::may_inspect(
                *old(self),
                *token,
                *context,
                *expectation,
                *namespace,
                request_nonce,
                *final(self),
                reply,
            ),
    ;

    /// Seals a token.
    fn issue(&mut self, state: &ContinuationState, context: &ContinuationProtectionContext) -> (reply:
        Result<ContinuationToken, ProtectionUnavailable>)
        ensures
            Self::may_issue(*old(self), *state, *context, *final(self), reply),
    ;
}

/// An engine could not be opened, or a query could not be executed at all.
#[derive(Debug, Clone, Copy, PartialEq, Eq, Structural)]
pub struct EngineUnavailable;

/// Executes queries over one finalized store and one recent snapshot.
///
/// It is opened over a store for one compiled profile, whose reads and response slots are
/// the engine's.
pub trait PrivateQueryEngine<Slot>: Sized {
    type Store;

    /// The engines that a store and a profile may give.
    open spec fn may_open(
        store: Self::Store,
        profile: PrivacyProfile,
        reply: Result<Self, EngineUnavailable>,
    ) -> bool {
        true
    }

    /// The widths that the store may have.
    open spec fn may_have_width(self, slots: usize) -> bool {
        true
    }

    /// The replies that an execution may give, and the state it may leave.
    open spec fn may_execute(
        before: Self,
        query: UtxoQuery,
        cursor: usize,
        recent: Seq<Slot>,
        after: Self,
        reply: Result<EngineExecution, EngineUnavailable>,
    ) -> bool {
        true
    }

    fn open(store: Self::Store, profile: &PrivacyProfile) -> (reply: Result<
        Self,
        EngineUnavailable,
    >)
        ensures
            Self::may_open(store, *profile, reply),
    ;

    /// Store slots that one query reads.
    fn slots_per_key(&self) -> (slots: usize)
        ensures
            self.may_have_width(slots),
    ;

    fn execute_from(&mut self, query: &UtxoQuery, cursor: usize, recent: &Vec<Slot>) -> (reply:
        Result<EngineExecution, EngineUnavailable>)
        ensures
            Self::may_execute(*old(self), *query, cursor, recent@, *final(self), reply),
    ;
}

/// A snapshot slot could not be read.
#[derive(Debug, Clone, Copy, PartialEq, Eq, Structural)]
pub struct SlotUnreadable;

/// Frozen recent part of the chain, with its lineage.
pub trait FrozenRecentSnapshot: Sized {
    type Slot;

    /// A slot that stands for nothing.
    open spec fn is_dummy(slot: Self::Slot) -> bool {
        true
    }

    /// The replies that a read may give, and the state it may leave.
    open spec fn may_read(
        before: Self,
        ordinal: usize,
        after: Self,
        reply: Result<Self::Slot, SlotUnreadable>,
    ) -> bool {
        true
    }

    /// What the snapshot may say it was frozen as.
    open spec fn may_be_frozen_as(self, frozen: SnapshotScan) -> bool {
        true
    }

    /// What the snapshot may say of scanned slots.
    open spec fn may_describe(self, scanned: Seq<Self::Slot>, scan: SnapshotScan) -> bool {
        true
    }

    fn dummy_slot(&self) -> (slot: Self::Slot)
        ensures
            Self::is_dummy(slot),
    ;

    fn read_slot(&mut self, ordinal: usize) -> (reply: Result<Self::Slot, SlotUnreadable>)
        ensures
            Self::may_read(*old(self), ordinal, *final(self), reply),
    ;

    /// Shape, identity and digests that the snapshot was frozen with.
    fn frozen(&self) -> (frozen: SnapshotScan)
        ensures
            self.may_be_frozen_as(frozen),
    ;

    /// Shape and identity of the snapshot now, the digest of the scanned slots,
    /// and the digest of that and the snapshot's lineage.
    fn describe(&self, scanned: &Vec<Self::Slot>) -> (scan: SnapshotScan)
        ensures
            self.may_describe(scanned@, scan),
    ;
}

/// The current serving epoch could not be observed, or is not the pinned one.
#[derive(Debug, Clone, Copy, PartialEq, Eq, Structural)]
pub struct ServingEpochUnavailable;

/// One observation of the current serving epoch.
#[derive(Clone, Copy, PartialEq, Eq)]
pub struct ServingEpochObservation {
    pub identity: RecentSnapshotIdentity,
    /// Number of the boundary capture; equal values captured again get another number.
    pub boundary: u64,
}

impl ServingEpochObservation {
    pub fn same(&self, other: &Self) -> (same: bool)
        ensures
            same == (*self == *other),
    {
        self.boundary == other.boundary && self.identity.same(&other.identity)
    }
}

/// Observes which serving epoch is current.
pub trait ServingEpochCurrentness: Sized {
    /// The replies that an observation may give, and the state it may leave.
    open spec fn may_observe(
        before: Self,
        after: Self,
        reply: Result<ServingEpochObservation, ServingEpochUnavailable>,
    ) -> bool {
        true
    }

    /// The replies that a publication check may give, and the state it may leave.
    open spec fn may_be_published(before: Self, after: Self, published: bool) -> bool {
        true
    }

    /// The handles that may be given out on the state observed here.
    open spec fn may_hand_out(self, handle: Self) -> bool {
        true
    }

    fn observe(&mut self) -> (reply: Result<ServingEpochObservation, ServingEpochUnavailable>)
        ensures
            Self::may_observe(*old(self), *final(self), reply),
    ;

    /// Whether the pinned epoch is still published.
    fn is_published(&mut self) -> (published: bool)
        ensures
            Self::may_be_published(*old(self), *final(self), published),
    ;

    /// Another handle on the same observed state.
    fn handle(&self) -> (handle: Self)
        ensures
            self.may_hand_out(handle),
    ;
}

/// Replies of one check of a pinned serving epoch.
pub struct ServingEpochTranscript<C> {
    pub observed: Result<ServingEpochObservation, ServingEpochUnavailable>,
    pub observer: C,
    pub published: bool,
}

/// One check of a pinned epoch: it passes if the observed epoch is the pinned
/// one and, after that comparison, is still published.
pub open spec fn serving_check<C: ServingEpochCurrentness>(
    pinned: ServingEpochObservation,
    before: C,
    transcript: ServingEpochTranscript<C>,
    after: C,
    result: Result<(), ServingEpochUnavailable>,
) -> bool {
    &&& C::may_observe(before, transcript.observer, transcript.observed)
    &&& if transcript.observed == Ok::<ServingEpochObservation, ServingEpochUnavailable>(pinned) {
        C::may_be_published(transcript.observer, after, transcript.published) && (result is Ok
            <==> transcript.published)
    } else {
        after == transcript.observer && result is Err
    }
}

/// One pinned serving epoch and the observer of the current one.
pub struct PinnedServingEpoch<C> {
    pub pinned: ServingEpochObservation,
    pub currentness: C,
}

impl<C> PinnedServingEpoch<C> {
    pub fn identity(&self) -> (identity: RecentSnapshotIdentity)
        ensures
            identity == self.pinned.identity,
    {
        self.pinned.identity
    }
}

impl<C: ServingEpochCurrentness> PinnedServingEpoch<C> {
    /// Checks that the pinned epoch is current.
    pub fn observe_and_match(&mut self) -> (result: Result<(), ServingEpochUnavailable>)
        ensures
            final(self).pinned == old(self).pinned,
            exists|transcript: ServingEpochTranscript<C>| #[trigger]
                serving_check(
                    old(self).pinned,
                    old(self).currentness,
                    transcript,
                    final(self).currentness,
                    result,
                ),
    {
        let observed = self.currentness.observe();
        let ghost observer = self.currentness;
        let ghost mut transcript = ServingEpochTranscript::<C> {
            observed,
            observer,
            published: false,
        };
        let observation = match observed {
            Ok(observation) => observation,
            Err(error) => {
                assert(serving_check(
                    old(self).pinned,
                    old(self).currentness,
                    transcript,
                    self.currentness,
                    Err(error),
                ));
                return Err(error);
            },
        };
        if !observation.same(&self.pinned) {
            assert(serving_check(
                old(self).pinned,
                old(self).currentness,
                transcript,
                self.currentness,
                Err(ServingEpochUnavailable),
            ));
            return Err(ServingEpochUnavailable);
        }
        let published = self.currentness.is_published();
        proof {
            transcript = ServingEpochTranscript { observed, observer, published };
        }
        let result = if published {
            Ok(())
        } else {
            Err(ServingEpochUnavailable)
        };
        assert(serving_check(
            old(self).pinned,
            old(self).currentness,
            transcript,
            self.currentness,
            result,
        ));
        result
    }

    /// Another lease on the same pinned epoch, to be kept with a response.
    pub fn release_witness(&self) -> (witness: Self)
        ensures
            witness.pinned == self.pinned,
            self.currentness.may_hand_out(witness.currentness),
    {
        PinnedServingEpoch { pinned: self.pinned, currentness: self.currentness.handle() }
    }
}

/// A pinned epoch passes its check exactly where what was observed is what was pinned, and
/// it was found to be published after that.
pub proof fn pinned_epoch_passes_where_it_is_observed<C: ServingEpochCurrentness>(
    pinned: ServingEpochObservation,
    before: C,
    transcript: ServingEpochTranscript<C>,
    after: C,
    result: Result<(), ServingEpochUnavailable>,
)
    requires
        serving_check(pinned, before, transcript, after, result),
    ensures
        C::may_observe(before, transcript.observer, transcript.observed),
        result is Ok <==> transcript.observed is Ok && transcript.observed->Ok_0.boundary
            == pinned.boundary && transcript.observed->Ok_0.identity == pinned.identity
            && transcript.published,
        transcript.observed is Ok && transcript.observed->Ok_0 == pinned ==> C::may_be_published(
            transcript.observer,
            after,
            transcript.published,
        ),
        transcript.observed is Err || transcript.observed->Ok_0 != pinned ==> after
            == transcript.observer,
{
}

} // verus!
