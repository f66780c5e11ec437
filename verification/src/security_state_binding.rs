//! Binding between committed replay state and the outer security snapshot.
//!
//! Nothing here infers a recovery direction, mutates the replay journal, or
//! advances the freshness witness.

use crate::bytes::append;
use crate::bytes::append_u16;
use crate::bytes::arrays_equal;
use crate::digest::blake2s256_digest;
use crate::replay_journal::ReplayJournalComponentStateDigest;
use crate::replay_store::ReplayJournalAdvanceReceipt;
use crate::replay_store::ReplayJournalMaintenanceAdvanceReceipt;
use crate::replay_store::ReplayJournalStore;
use crate::replay_store::ReplayJournalStoreHealth;
use crate::sealed::Sealed;
use crate::security_state::SecurityStateIdentity;
use crate::security_state::SecurityStateSnapshot;
use crate::security_state::SecurityStateValueError;
use crate::security_state::STATE_DIGEST_BYTES;
use vstd::prelude::*;

verus! {

/// `zaino-oram/security-component-state`.
pub const COMPONENT_STATE_DIGEST_DOMAIN: [u8; 35] = [
    0x7a, 0x61, 0x69, 0x6e, 0x6f, 0x2d, 0x6f, 0x72, 0x61, 0x6d, 0x2f, 0x73,
    0x65, 0x63, 0x75, 0x72, 0x69, 0x74, 0x79, 0x2d, 0x63, 0x6f, 0x6d, 0x70,
    0x6f, 0x6e, 0x65, 0x6e, 0x74, 0x2d, 0x73, 0x74, 0x61, 0x74, 0x65,
];

pub const COMPONENT_STATE_DIGEST_VERSION: u16 = 1;

/// Component digest that a snapshot carries for a replay digest.
pub open spec fn component_of(replay_digest: Seq<u8>) -> Seq<u8> {
    crate::digest::blake2s256(
        crate::replay_journal::versioned_preimage(
            COMPONENT_STATE_DIGEST_DOMAIN@,
            COMPONENT_STATE_DIGEST_VERSION,
            replay_digest,
        ),
    )
}

#[derive(Clone, Copy, PartialEq, Eq)]
pub struct SecurityComponentStateDigest(pub [u8; STATE_DIGEST_BYTES]);

impl SecurityComponentStateDigest {
    pub fn from_replay_journal(replay_digest: ReplayJournalComponentStateDigest) -> (digest: Self)
        ensures
            digest.0@ == component_of(replay_digest.0@),
    {
        let mut preimage: Vec<u8> = Vec::new();
        append(&mut preimage, COMPONENT_STATE_DIGEST_DOMAIN.as_slice());
        append_u16(&mut preimage, COMPONENT_STATE_DIGEST_VERSION);
        append(&mut preimage, replay_digest.as_bytes().as_slice());
        assert(preimage@ =~= crate::replay_journal::versioned_preimage(
            COMPONENT_STATE_DIGEST_DOMAIN@,
            COMPONENT_STATE_DIGEST_VERSION,
            replay_digest.0@,
        ));
        SecurityComponentStateDigest(blake2s256_digest(preimage.as_slice()))
    }

    pub fn into_bytes(self) -> (bytes: [u8; STATE_DIGEST_BYTES])
        ensures
            bytes == self.0,
    {
        self.0
    }

    /// Redacted rendering for logs.
    pub fn debug_text(&self) -> (text: &'static str)
        ensures
            text@ == "SecurityComponentStateDigest([REDACTED])"@,
    {
        "SecurityComponentStateDigest([REDACTED])"
    }
}

/// The replay component cannot say what its committed state is.
#[derive(Debug, Clone, Copy, PartialEq, Eq, Structural)]
pub struct ReplayJournalComponentStateUnavailable;

impl ReplayJournalComponentStateUnavailable {
    /// Text shown to an operator.
    pub fn message(&self) -> (text: &'static str)
        ensures
            text@ == "replay journal component state is unavailable"@,
    {
        "replay journal component state is unavailable"
    }
}

/// Supplies the current committed replay identity only while the store is ready.
pub trait ReplayJournalComponentState: Sealed {
    /// The digest of the committed state, while it is known.
    spec fn committed_digest(&self) -> Option<Seq<u8>>;

    /// The instance whose receipts are recognized.
    spec fn instance(&self) -> u64;

    fn component_state_digest(&self) -> (result: Result<
        ReplayJournalComponentStateDigest,
        ReplayJournalComponentStateUnavailable,
    >)
        ensures
            match result {
                Ok(digest) => self.committed_digest() == Some(digest.0@),
                Err(_) => self.committed_digest() is None,
            },
    ;

    fn recognizes_receipt(&self, receipt: &ReplayJournalAdvanceReceipt) -> (recognized: bool)
        ensures
            recognized == (receipt.instance_identity == self.instance()),
    ;

    fn recognizes_maintenance_receipt(
        &self,
        receipt: &ReplayJournalMaintenanceAdvanceReceipt,
    ) -> (recognized: bool)
        ensures
            recognized == (receipt.instance_identity == self.instance()),
    ;
}

impl<F, P> Sealed for ReplayJournalStore<F, P> {

}

impl<F, P> ReplayJournalComponentState for ReplayJournalStore<F, P> {
    open spec fn committed_digest(&self) -> Option<Seq<u8>> {
        if self.health is Ready {
            Some(crate::replay_journal::head_digest(self.state@))
        } else {
            None
        }
    }

    open spec fn instance(&self) -> u64 {
        self.instance_identity
    }

    fn component_state_digest(&self) -> Result<
        ReplayJournalComponentStateDigest,
        ReplayJournalComponentStateUnavailable,
    > {
        match self.health {
            ReplayJournalStoreHealth::Ready => Ok(self.state.component_state_digest()),
            ReplayJournalStoreHealth::Indeterminate => Err(ReplayJournalComponentStateUnavailable),
        }
    }

    fn recognizes_receipt(&self, receipt: &ReplayJournalAdvanceReceipt) -> bool {
        receipt.was_minted_for(self.instance_identity)
    }

    fn recognizes_maintenance_receipt(
        &self,
        receipt: &ReplayJournalMaintenanceAdvanceReceipt,
    ) -> bool {
        receipt.was_minted_for(self.instance_identity)
    }
}

#[derive(Debug, Clone, Copy, PartialEq, Eq, Structural)]
pub enum SecurityStateBindingError {
    ReplayComponentMismatch,
    ReplayComponentDidNotAdvance,
    ReplayComponentUnavailable,
    ReplayJournalInstanceMismatch,
    ReplayReceiptNotCurrent,
    InvalidSnapshot(SecurityStateValueError),
}

impl SecurityStateBindingError {
    pub open spec fn text(self) -> Seq<char> {
        match self {
            Self::ReplayComponentMismatch =>
                "replay component does not match the outer security snapshot"@,
            Self::ReplayComponentDidNotAdvance =>
                "replay transition receipt did not advance the component"@,
            Self::ReplayComponentUnavailable => "replay component state is unavailable"@,
            Self::ReplayJournalInstanceMismatch =>
                "replay transition receipt belongs to a different journal instance"@,
            Self::ReplayReceiptNotCurrent =>
                "replay transition receipt no longer names the current journal state"@,
            Self::InvalidSnapshot(_) =>
                "replay component produced an invalid security snapshot"@,
        }
    }

    /// Text shown to an operator.
    pub fn message(&self) -> (text: &'static str)
        ensures
            text@ == self.text(),
    {
        match self {
            Self::ReplayComponentMismatch =>
                "replay component does not match the outer security snapshot",
            Self::ReplayComponentDidNotAdvance =>
                "replay transition receipt did not advance the component",
            Self::ReplayComponentUnavailable => "replay component state is unavailable",
            Self::ReplayJournalInstanceMismatch =>
                "replay transition receipt belongs to a different journal instance",
            Self::ReplayReceiptNotCurrent =>
                "replay transition receipt no longer names the current journal state",
            Self::InvalidSnapshot(_) => "replay component produced an invalid security snapshot",
        }
    }

    /// The underlying value error, if there is one.
    pub fn source(&self) -> (source: Option<SecurityStateValueError>)
        ensures
            source == match *self {
                Self::InvalidSnapshot(error) => Some(error),
                _ => None,
            },
    {
        match self {
            Self::InvalidSnapshot(error) => Some(*error),
            _ => None,
        }
    }
}

/// The snapshot names exactly this replay state.
pub open spec fn is_bound(snapshot: SecurityStateSnapshot, replay_digest: Seq<u8>) -> bool {
    snapshot.commitment.component_state_digest@ == component_of(replay_digest)
}

fn current_replay_digest<R: ReplayJournalComponentState>(replay_journal: &R) -> (result: Result<
    ReplayJournalComponentStateDigest,
    SecurityStateBindingError,
>)
    ensures
        match result {
            Ok(digest) => replay_journal.committed_digest() == Some(digest.0@),
            Err(error) => replay_journal.committed_digest() is None && error
                == SecurityStateBindingError::ReplayComponentUnavailable,
        },
{
    match replay_journal.component_state_digest() {
        Ok(digest) => Ok(digest),
        Err(_) => Err(SecurityStateBindingError::ReplayComponentUnavailable),
    }
}

/// Provisions the first outer snapshot from the live replay state.
///
/// Calling this function is a provisioning decision. It must not be used to
/// infer that a missing outer snapshot means a previously committed state was
/// never present.
pub fn provision_initial_snapshot<R: ReplayJournalComponentState>(
    identity: SecurityStateIdentity,
    serving_identity_digest: [u8; STATE_DIGEST_BYTES],
    replay_journal: &R,
) -> (result: Result<SecurityStateSnapshot, SecurityStateBindingError>)
    ensures
        match replay_journal.committed_digest() {
            None => result == Err::<SecurityStateSnapshot, _>(
                SecurityStateBindingError::ReplayComponentUnavailable,
            ),
            Some(digest) => match result {
                Ok(snapshot) => {
                    &&& is_bound(snapshot, digest)
                    &&& snapshot.sequence == 1
                    &&& snapshot.commitment.identity == identity
                    &&& snapshot.commitment.serving_identity_digest == serving_identity_digest
                    &&& crate::security_state::commitment_error(
                        serving_identity_digest@,
                        component_of(digest),
                    ) is None
                },
                Err(error) => match crate::security_state::commitment_error(
                    serving_identity_digest@,
                    component_of(digest),
                ) {
                    Some(fault) => error == SecurityStateBindingError::InvalidSnapshot(fault),
                    None => false,
                },
            },
        },
{
    let replay_digest = match current_replay_digest(replay_journal) {
        Ok(digest) => digest,
        Err(error) => {
            return Err(error);
        },
    };
    let component = SecurityComponentStateDigest::from_replay_journal(replay_digest);
    match SecurityStateSnapshot::initial_with_component_state_digest(
        identity,
        serving_identity_digest,
        component.into_bytes(),
    ) {
        Ok(snapshot) => Ok(snapshot),
        Err(error) => Err(SecurityStateBindingError::InvalidSnapshot(error)),
    }
}

/// Accepts reopened component state only when it exactly matches the snapshot.
pub fn verify_current<R: ReplayJournalComponentState>(
    snapshot: &SecurityStateSnapshot,
    replay_journal: &R,
) -> (result: Result<(), SecurityStateBindingError>)
    ensures
        result == match replay_journal.committed_digest() {
            None => Err(SecurityStateBindingError::ReplayComponentUnavailable),
            Some(digest) => if is_bound(*snapshot, digest) {
                Ok(())
            } else {
                Err(SecurityStateBindingError::ReplayComponentMismatch)
            },
        },
{
    let replay_digest = match current_replay_digest(replay_journal) {
        Ok(digest) => digest,
        Err(error) => {
            return Err(error);
        },
    };
    if names_replay_digest(snapshot, replay_digest) {
        Ok(())
    } else {
        Err(SecurityStateBindingError::ReplayComponentMismatch)
    }
}

/// Whether the snapshot names exactly this replay digest.
fn names_replay_digest(
    snapshot: &SecurityStateSnapshot,
    replay_digest: ReplayJournalComponentStateDigest,
) -> (named: bool)
    ensures
        named == is_bound(*snapshot, replay_digest.0@),
{
    let component = SecurityComponentStateDigest::from_replay_journal(replay_digest).into_bytes();
    let own = snapshot.component_state_digest();
    proof {
        if own@ == component@ {
            crate::bytes::lemma_array_extensional(own, component);
        }
    }
    arrays_equal(&own, &component)
}

/// Rejects an exhausted outer sequence before a replay commit can become durable.
pub fn preflight_successor(expected_snapshot: &SecurityStateSnapshot) -> (result: Result<
    (),
    SecurityStateBindingError,
>)
    ensures
        result == if expected_snapshot.sequence == u64::MAX {
            Err(
                SecurityStateBindingError::InvalidSnapshot(
                    SecurityStateValueError::SequenceOverflow,
                ),
            )
        } else {
            Ok(())
        },
{
    match expected_snapshot.checked_successor_sequence() {
        Ok(_) => Ok(()),
        Err(error) => Err(SecurityStateBindingError::InvalidSnapshot(error)),
    }
}

/// Why a replay transition does not lead to a successor snapshot, in the order
/// in which reasons are reported.
pub open spec fn transition_error(
    expected_snapshot: SecurityStateSnapshot,
    recognized: bool,
    previous: Seq<u8>,
    committed: Seq<u8>,
    current: Option<Seq<u8>>,
) -> Option<SecurityStateBindingError> {
    if !recognized {
        Some(SecurityStateBindingError::ReplayJournalInstanceMismatch)
    } else if !is_bound(expected_snapshot, previous) {
        Some(SecurityStateBindingError::ReplayComponentMismatch)
    } else if committed == previous {
        Some(SecurityStateBindingError::ReplayComponentDidNotAdvance)
    } else if current is None {
        Some(SecurityStateBindingError::ReplayComponentUnavailable)
    } else if current != Some(committed) {
        Some(SecurityStateBindingError::ReplayReceiptNotCurrent)
    } else if expected_snapshot.sequence == u64::MAX {
        Some(SecurityStateBindingError::InvalidSnapshot(SecurityStateValueError::SequenceOverflow))
    } else {
        match crate::security_state::commitment_error(
            expected_snapshot.commitment.serving_identity_digest@,
            component_of(committed),
        ) {
            Some(error) => Some(SecurityStateBindingError::InvalidSnapshot(error)),
            None => None,
        }
    }
}

/// Next snapshot of the same owner, bound to newly committed replay state.
pub open spec fn is_successor_snapshot(
    expected_snapshot: SecurityStateSnapshot,
    committed: Seq<u8>,
    next: SecurityStateSnapshot,
) -> bool {
    &&& next.sequence == expected_snapshot.sequence + 1
    &&& next.commitment.identity == expected_snapshot.commitment.identity
    &&& next.commitment.serving_identity_digest
        == expected_snapshot.commitment.serving_identity_digest
    &&& is_bound(next, committed)
}

/// What a replay transition gives.
pub open spec fn transition_gives(
    expected_snapshot: SecurityStateSnapshot,
    recognized: bool,
    previous: Seq<u8>,
    committed: Seq<u8>,
    current: Option<Seq<u8>>,
    result: Result<SecurityStateSnapshot, SecurityStateBindingError>,
) -> bool {
    let fault = transition_error(expected_snapshot, recognized, previous, committed, current);
    match result {
        Ok(next) => fault is None && is_successor_snapshot(expected_snapshot, committed, next),
        Err(error) => fault == Some(error),
    }
}

/// Constructs a successor from one durably committed replay transaction.
///
/// Accepts only the snapshot that names the receipt's immediate predecessor,
/// and never reads reopened disk state or infers a recovery direction.
pub fn successor_after_replay_commit<R: ReplayJournalComponentState>(
    expected_snapshot: &SecurityStateSnapshot,
    receipt: ReplayJournalAdvanceReceipt,
    replay_journal: &R,
) -> (result: Result<SecurityStateSnapshot, SecurityStateBindingError>)
    ensures
        transition_gives(
            *expected_snapshot,
            receipt.instance_identity == replay_journal.instance(),
            receipt.previous_digest.0@,
            receipt.committed_digest.0@,
            replay_journal.committed_digest(),
            result,
        ),
{
    if !replay_journal.recognizes_receipt(&receipt) {
        return Err(SecurityStateBindingError::ReplayJournalInstanceMismatch);
    }
    let (previous, committed) = receipt.into_digests();
    successor_after_replay_transition(expected_snapshot, previous, committed, replay_journal)
}

/// Constructs a successor from one durably committed maintenance watermark.
///
/// The distinct receipt cannot be substituted for request replay evidence.
pub fn successor_after_replay_maintenance<R: ReplayJournalComponentState>(
    expected_snapshot: &SecurityStateSnapshot,
    receipt: ReplayJournalMaintenanceAdvanceReceipt,
    replay_journal: &R,
) -> (result: Result<SecurityStateSnapshot, SecurityStateBindingError>)
    ensures
        transition_gives(
            *expected_snapshot,
            receipt.instance_identity == replay_journal.instance(),
            receipt.previous_digest.0@,
            receipt.committed_digest.0@,
            replay_journal.committed_digest(),
            result,
        ),
{
    if !replay_journal.recognizes_maintenance_receipt(&receipt) {
        return Err(SecurityStateBindingError::ReplayJournalInstanceMismatch);
    }
    let (previous, committed) = receipt.into_digests();
    successor_after_replay_transition(expected_snapshot, previous, committed, replay_journal)
}

/// A receipt of one journal moves no snapshot on over another journal of the same source,
/// not even over one opened again from the same files.
pub proof fn journals_of_one_source_disown_each_other<R: ReplayJournalComponentState>(
    sources: Seq<u64>,
    numbers: Seq<Option<u64>>,
    i: int,
    j: int,
    expected_snapshot: SecurityStateSnapshot,
    receipt: ReplayJournalAdvanceReceipt,
    maintenance: ReplayJournalMaintenanceAdvanceReceipt,
    replay_journal: R,
    after_commit: Result<SecurityStateSnapshot, SecurityStateBindingError>,
    after_maintenance: Result<SecurityStateSnapshot, SecurityStateBindingError>,
)
    requires
        crate::instances::counts(sources, numbers),
        0 <= i < numbers.len(),
        0 <= j < numbers.len(),
        i != j,
        numbers[i] == Some(receipt.instance_identity),
        numbers[i] == Some(maintenance.instance_identity),
        numbers[j] == Some(replay_journal.instance()),
        transition_gives(
            expected_snapshot,
            receipt.instance_identity == replay_journal.instance(),
            receipt.previous_digest.0@,
            receipt.committed_digest.0@,
            replay_journal.committed_digest(),
            after_commit,
        ),
        transition_gives(
            expected_snapshot,
            maintenance.instance_identity == replay_journal.instance(),
            maintenance.previous_digest.0@,
            maintenance.committed_digest.0@,
            replay_journal.committed_digest(),
            after_maintenance,
        ),
    ensures
        after_commit == Err::<SecurityStateSnapshot, _>(
            SecurityStateBindingError::ReplayJournalInstanceMismatch,
        ),
        after_maintenance == Err::<SecurityStateSnapshot, _>(
            SecurityStateBindingError::ReplayJournalInstanceMismatch,
        ),
{
    crate::instances::lemma_draws_differ(sources, numbers, i, j);
}

fn successor_after_replay_transition<R: ReplayJournalComponentState>(
    expected_snapshot: &SecurityStateSnapshot,
    previous: ReplayJournalComponentStateDigest,
    committed: ReplayJournalComponentStateDigest,
    replay_journal: &R,
) -> (result: Result<SecurityStateSnapshot, SecurityStateBindingError>)
    ensures
        transition_gives(
            *expected_snapshot,
            true,
            previous.0@,
            committed.0@,
            replay_journal.committed_digest(),
            result,
        ),
{
    if !names_replay_digest(expected_snapshot, previous) {
        return Err(SecurityStateBindingError::ReplayComponentMismatch);
    }
    proof {
        if committed.0@ == previous.0@ {
            crate::bytes::lemma_array_extensional(committed.0, previous.0);
        }
    }
    if committed.same(&previous) {
        return Err(SecurityStateBindingError::ReplayComponentDidNotAdvance);
    }
    let current = match current_replay_digest(replay_journal) {
        Ok(digest) => digest,
        Err(error) => {
            return Err(error);
        },
    };
    proof {
        if current.0@ == committed.0@ {
            crate::bytes::lemma_array_extensional(current.0, committed.0);
        }
    }
    if !current.same(&committed) {
        return Err(SecurityStateBindingError::ReplayReceiptNotCurrent);
    }
    let component = SecurityComponentStateDigest::from_replay_journal(committed);
    match expected_snapshot.successor_with_component_state_digest(component.into_bytes()) {
        Ok(next) => Ok(next),
        Err(error) => Err(SecurityStateBindingError::InvalidSnapshot(error)),
    }
}

/// The successor of a valid snapshot is valid, follows it by one, and is an
/// advance that the security-state store accepts.
pub proof fn bound_successor_is_accepted(
    expected_snapshot: SecurityStateSnapshot,
    committed: Seq<u8>,
    next: SecurityStateSnapshot,
)
    requires
        expected_snapshot.wf(),
        is_successor_snapshot(expected_snapshot, committed, next),
        crate::security_state::commitment_error(
            expected_snapshot.commitment.serving_identity_digest@,
            component_of(committed),
        ) is None,
    ensures
        next.wf(),
        crate::security_state_store::advance_error(
            Some(expected_snapshot),
            Some(expected_snapshot),
            next,
        ) is None,
{
}

/// A snapshot is bound to a journal exactly where its component digest is that of the
/// journal's own digest, under the domain and the version of component states.
pub proof fn snapshot_is_bound_by_its_component_digest(
    snapshot: SecurityStateSnapshot,
    replay_digest: Seq<u8>,
)
    ensures
        is_bound(snapshot, replay_digest) <==> snapshot.commitment.component_state_digest@
            == crate::digest::blake2s256(
            COMPONENT_STATE_DIGEST_DOMAIN@ + seq![0u8, 1u8] + replay_digest,
        ),
{
    assert(crate::bytes::u16_be(1) =~= seq![0u8, 1u8]);
}

/// A transition gives a next snapshot exactly where the receipt is of this journal, starts
/// where the snapshot is bound, moves on, and ends where the journal is, and the next
/// snapshot can be made. The next snapshot keeps the owner and the serving digest, takes the
/// next sequence, and is bound to the journal's new digest. A refusal names the first of
/// these that fails.
pub proof fn transition_follows_the_journal(
    expected_snapshot: SecurityStateSnapshot,
    recognized: bool,
    previous: Seq<u8>,
    committed: Seq<u8>,
    current: Option<Seq<u8>>,
    result: Result<SecurityStateSnapshot, SecurityStateBindingError>,
)
    requires
        transition_gives(expected_snapshot, recognized, previous, committed, current, result),
    ensures
        result matches Ok(next) ==> {
            &&& recognized
            &&& expected_snapshot.commitment.component_state_digest@ == component_of(previous)
            &&& committed != previous
            &&& current == Some(committed)
            &&& expected_snapshot.sequence < u64::MAX
            &&& next.sequence == expected_snapshot.sequence + 1
            &&& next.commitment.identity == expected_snapshot.commitment.identity
            &&& next.commitment.serving_identity_digest
                == expected_snapshot.commitment.serving_identity_digest
            &&& next.commitment.component_state_digest@ == component_of(committed)
        },
        result matches Err(error) ==> {
            let bound = expected_snapshot.commitment.component_state_digest@ == component_of(
                previous,
            );
            &&& error is ReplayJournalInstanceMismatch <==> !recognized
            &&& error is ReplayComponentMismatch <==> recognized && !bound
            &&& error is ReplayComponentDidNotAdvance <==> recognized && bound && committed
                == previous
            &&& error is ReplayComponentUnavailable <==> recognized && bound && committed
                != previous && current is None
            &&& error is ReplayReceiptNotCurrent <==> recognized && bound && committed != previous
                && current is Some && current->Some_0 != committed
            &&& error is InvalidSnapshot ==> recognized && bound && committed != previous && current
                == Some(committed) && (expected_snapshot.sequence == u64::MAX || (forall|i: int|
                0 <= i < 32
                    ==> #[trigger] expected_snapshot.commitment.serving_identity_digest@[i] == 0)
                || crate::bytes::is_zero(component_of(committed)))
        },
{
}

/// The domain of a component digest, in plain letters.
pub proof fn component_domain_is_in_plain_letters()
    ensures
        COMPONENT_STATE_DIGEST_DOMAIN@.map_values(|byte: u8| byte as char)
            == "zaino-oram/security-component-state"@,
{
    reveal_strlit("zaino-oram/security-component-state");
    assert(COMPONENT_STATE_DIGEST_DOMAIN@.map_values(|byte: u8| byte as char)
        =~= "zaino-oram/security-component-state"@);
}

/// No two faults of this kind are shown by the same text: an operator can tell each from
/// every other.
pub proof fn binding_faults_are_told_apart(
    left: SecurityStateBindingError,
    right: SecurityStateBindingError,
)
    requires
        left.text() == right.text(),
    ensures
        left is ReplayComponentMismatch <==> right is ReplayComponentMismatch,
        left is ReplayComponentDidNotAdvance <==> right is ReplayComponentDidNotAdvance,
        left is ReplayComponentUnavailable <==> right is ReplayComponentUnavailable,
        left is ReplayJournalInstanceMismatch <==> right is ReplayJournalInstanceMismatch,
        left is ReplayReceiptNotCurrent <==> right is ReplayReceiptNotCurrent,
        left is InvalidSnapshot <==> right is InvalidSnapshot,
{
    reveal_strlit("replay component does not match the outer security snapshot");
    assert("replay component does not match the outer security snapshot"@.len() == 59);
    reveal_strlit("replay transition receipt did not advance the component");
    assert("replay transition receipt did not advance the component"@.len() == 55);
    reveal_strlit("replay component state is unavailable");
    assert("replay component state is unavailable"@.len() == 37);
    reveal_strlit("replay transition receipt belongs to a different journal instance");
    assert("replay transition receipt belongs to a different journal instance"@.len() == 65);
    reveal_strlit("replay transition receipt no longer names the current journal state");
    assert("replay transition receipt no longer names the current journal state"@.len() == 67);
    reveal_strlit("replay component produced an invalid security snapshot");
    assert("replay component produced an invalid security snapshot"@.len() == 54);
}

} // verus!
